//! Write-once readiness state.
//!
//! The background reader is the sole writer: the first readiness signal it
//! parses sets the port, and every later signal is ignored, so the state
//! moves at most once, from `Unknown` to `Ready`. Any number of concurrent
//! callers may query the shared cell at any time.

use crate::parser::{parse_readiness_line, spec_parse_port};
use vstd::prelude::*;
use vstd::rwlock::{RwLock, RwLockPredicate};

verus! {

/// Whether the worker has reported its port yet.
#[derive(Clone, Copy, PartialEq, Eq, Structural, Debug)]
pub enum ReadinessState {
    Unknown,
    Ready(u16),
}

impl ReadinessState {
    /// The discovered port, if any.
    pub open spec fn spec_port(self) -> Option<u16> {
        match self {
            ReadinessState::Unknown => None,
            ReadinessState::Ready(p) => Some(p),
        }
    }

    /// The discovered port, if any.
    pub fn port(&self) -> (r: Option<u16>)
        ensures
            r == self.spec_port(),
    {
        match self {
            ReadinessState::Unknown => None,
            ReadinessState::Ready(p) => Some(*p),
        }
    }
}

/// One publication step: the first signal sets the port; a later signal is
/// ignored, so a `Ready` state never changes.
pub open spec fn spec_publish(s: ReadinessState, port: u16) -> ReadinessState {
    match s {
        ReadinessState::Unknown => ReadinessState::Ready(port),
        ReadinessState::Ready(_) => s,
    }
}

/// Effect of one worker output line on the readiness state: a readiness line
/// publishes its port, any other line changes nothing.
pub open spec fn spec_observe_line(s: ReadinessState, line: Seq<u8>) -> ReadinessState {
    match spec_parse_port(line) {
        Some(p) => spec_publish(s, p),
        None => s,
    }
}

/// Effect of a whole stream of output lines, earliest line first.
pub open spec fn spec_observe_lines(s: ReadinessState, lines: Seq<Seq<u8>>) -> ReadinessState
    decreases lines.len(),
{
    if lines.len() == 0 {
        s
    } else {
        spec_observe_lines(spec_observe_line(s, lines[0]), lines.skip(1))
    }
}

/// Apply one publication step.
pub fn publish_step(s: ReadinessState, port: u16) -> (r: ReadinessState)
    ensures
        r == spec_publish(s, port),
{
    match s {
        ReadinessState::Unknown => ReadinessState::Ready(port),
        ReadinessState::Ready(_) => s,
    }
}

/// Apply the effect of one output line.
pub fn observe_line_step(s: ReadinessState, line: &[u8]) -> (r: ReadinessState)
    ensures
        r == spec_observe_line(s, line@),
{
    match parse_readiness_line(line) {
        Some(p) => publish_step(s, p),
        None => s,
    }
}

/// Run a whole output stream through the readiness state: the state the
/// background reader leaves behind once the worker's output closes.
pub fn observe_lines(s: ReadinessState, lines: &Vec<Vec<u8>>) -> (r: ReadinessState)
    ensures
        r == spec_observe_lines(s, lines.deep_view()),
{
    let ghost all = lines.deep_view();
    proof {
        assert(all.skip(0) =~= all);
    }
    let mut cur = s;
    let mut i: usize = 0;
    while i < lines.len()
        invariant
            0 <= i <= lines.len(),
            all == lines.deep_view(),
            all.len() == lines.len(),
            spec_observe_lines(s, all) == spec_observe_lines(cur, all.skip(i as int)),
        decreases lines.len() - i,
    {
        proof {
            assert(all.skip(i as int)[0] == all[i as int]);
            assert(all.skip(i as int).skip(1) =~= all.skip(i as int + 1));
            assert(all[i as int] == lines@[i as int]@);
        }
        cur = observe_line_step(cur, lines[i].as_slice());
        i += 1;
    }
    proof {
        assert(all.skip(lines.len() as int) =~= Seq::<Seq<u8>>::empty());
    }
    cur
}

/// Once ready, always ready: no stream of lines moves a `Ready` state.
pub proof fn lemma_ready_is_stable(s: ReadinessState, lines: Seq<Seq<u8>>)
    requires
        s is Ready,
    ensures
        spec_observe_lines(s, lines) == s,
    decreases lines.len(),
{
    if lines.len() > 0 {
        lemma_ready_is_stable(s, lines.skip(1));
    }
}

/// A stream without a readiness signal leaves the state untouched.
pub proof fn lemma_no_signal_no_change(s: ReadinessState, lines: Seq<Seq<u8>>)
    requires
        forall|j: int| 0 <= j < lines.len() ==> spec_parse_port(#[trigger] lines[j]) is None,
    ensures
        spec_observe_lines(s, lines) == s,
    decreases lines.len(),
{
    if lines.len() > 0 {
        assert forall|j: int| 0 <= j < lines.skip(1).len() implies spec_parse_port(
            #[trigger] lines.skip(1)[j],
        ) is None by {
            assert(lines.skip(1)[j] == lines[j + 1]);
        }
        lemma_no_signal_no_change(s, lines.skip(1));
    }
}

/// The first readiness signal in a stream decides the final state, exactly
/// once, no matter how many further signals follow.
pub proof fn lemma_first_signal_wins(lines: Seq<Seq<u8>>, i: int, p: u16)
    requires
        0 <= i < lines.len(),
        spec_parse_port(lines[i]) == Some(p),
        forall|j: int| 0 <= j < i ==> spec_parse_port(#[trigger] lines[j]) is None,
    ensures
        spec_observe_lines(ReadinessState::Unknown, lines) == ReadinessState::Ready(p),
    decreases i,
{
    if i == 0 {
        assert(spec_observe_line(ReadinessState::Unknown, lines[0]) == ReadinessState::Ready(p));
        lemma_ready_is_stable(ReadinessState::Ready(p), lines.skip(1));
    } else {
        assert(spec_observe_line(ReadinessState::Unknown, lines[0])
            == ReadinessState::Unknown);
        assert(lines.skip(1)[i - 1] == lines[i]);
        assert forall|j: int| 0 <= j < i - 1 implies spec_parse_port(
            #[trigger] lines.skip(1)[j],
        ) is None by {
            assert(lines.skip(1)[j] == lines[j + 1]);
        }
        lemma_first_signal_wins(lines.skip(1), i - 1, p);
    }
}

/// Lock predicate of the readiness cell: any state value may be stored. The
/// write-once discipline is carried by `spec_publish`, the only transition
/// the writer ever applies.
pub struct ReadinessPred;

impl RwLockPredicate<ReadinessState> for ReadinessPred {
    open spec fn inv(self, v: ReadinessState) -> bool {
        true
    }
}

/// Concurrency-safe holder of the discovered port.
///
/// The background reader publishes through `observe_line`; any number of
/// concurrent callers read through `query`. Lock holders only copy a value
/// out or swap one in, so no caller ever waits on the reader's blocking
/// line I/O, and no caller can observe a partially written value.
pub struct SharedReadinessState {
    cell: RwLock<ReadinessState, ReadinessPred>,
}

impl SharedReadinessState {
    /// A fresh cell: no port known yet.
    pub fn new() -> SharedReadinessState {
        SharedReadinessState { cell: RwLock::new(ReadinessState::Unknown, Ghost(ReadinessPred)) }
    }

    /// Snapshot of the current state. Never blocks on the background reader
    /// and never errors: it returns whatever state is current.
    pub fn query(&self) -> ReadinessState {
        let handle = self.cell.acquire_read();
        let r = *handle.borrow();
        handle.release_read();
        r
    }

    /// Atomically apply one `spec_publish` step: set the port if it was
    /// unknown, ignore the signal otherwise.
    pub fn publish(&self, port: u16) {
        let (cur, write_handle) = self.cell.acquire_write();
        write_handle.release_write(publish_step(cur, port));
    }

    /// Feed one worker output line: on a readiness signal, publish its port.
    /// Returns the parsed port exactly when the line is a readiness line.
    pub fn observe_line(&self, line: &[u8]) -> (r: Option<u16>)
        ensures
            r == spec_parse_port(line@),
    {
        match parse_readiness_line(line) {
            Some(p) => {
                self.publish(p);
                Some(p)
            },
            None => None,
        }
    }
}

} // verus!
