//! Lifecycle state machine of one supervised worker:
//! `Idle -> Starting -> (Ready | StartupFailed) -> Terminated`.
//!
//! The machine owns every lifecycle decision; the host glue performs the OS
//! actions it calls for (spawn the process, hand over the output stream,
//! kill the process) and reports their outcomes back as plain values.

use vstd::prelude::*;

verus! {

/// Lifecycle phase of a supervisor. There is no way back from `Terminated`:
/// a terminated supervisor cannot be restarted.
#[derive(Clone, Copy, PartialEq, Eq, Structural, Debug)]
pub enum Phase {
    Idle,
    Starting,
    Ready,
    StartupFailed,
    Terminated,
}

/// The errors the supervisor can surface. Malformed readiness lines and a
/// closing output stream are not errors and have no variant here.
#[derive(Clone, PartialEq, Eq, Debug)]
pub enum SupervisorError {
    /// Spawning the worker failed; carries the OS-level cause. Fatal to
    /// startup: the application has no fallback without its worker.
    SpawnFailed(String),
    /// The worker's output stream was requested a second time.
    StreamAlreadyTaken,
}

/// Model of the one child process a supervisor owns: whether a live OS
/// handle exists, and whether its standard output has been handed out.
pub struct SupervisedProcess {
    live: bool,
    stdout_taken: bool,
}

impl SupervisedProcess {
    /// Whether a live OS process handle exists.
    pub closed spec fn live(self) -> bool {
        self.live
    }

    /// Whether the standard-output stream has been handed out.
    pub closed spec fn stdout_taken(self) -> bool {
        self.stdout_taken
    }

    /// A process that was never spawned.
    pub fn not_spawned() -> (s: SupervisedProcess)
        ensures
            !s.live(),
            !s.stdout_taken(),
    {
        SupervisedProcess { live: false, stdout_taken: false }
    }

    /// A freshly spawned process: live, stream not yet handed out.
    pub fn spawned() -> (s: SupervisedProcess)
        ensures
            s.live(),
            !s.stdout_taken(),
    {
        SupervisedProcess { live: true, stdout_taken: false }
    }

    /// Claim the standard-output stream. Granted exactly once: the stream is
    /// not shareable, so a second claim fails with `StreamAlreadyTaken`.
    pub fn take_stdout(&mut self) -> (r: Result<(), SupervisorError>)
        requires
            old(self).live(),
        ensures
            final(self).live() == old(self).live(),
            final(self).stdout_taken(),
            r is Ok <==> !old(self).stdout_taken(),
            old(self).stdout_taken() ==> r == Err::<(), SupervisorError>(
                SupervisorError::StreamAlreadyTaken,
            ),
    {
        if self.stdout_taken {
            Err(SupervisorError::StreamAlreadyTaken)
        } else {
            self.stdout_taken = true;
            Ok(())
        }
    }

    /// Decide termination: kill exactly when a live handle exists. Total and
    /// idempotent — on a dead or never-spawned process it decides nothing,
    /// and it never errors.
    pub fn terminate(&mut self) -> (kill: bool)
        ensures
            !final(self).live(),
            final(self).stdout_taken() == old(self).stdout_taken(),
            kill == old(self).live(),
    {
        let kill = self.live;
        self.live = false;
        kill
    }
}

/// The orchestrator of one worker: phase machine plus process model.
pub struct Supervisor {
    phase: Phase,
    process: SupervisedProcess,
}

/// Relation between a supervisor before and after `shutdown`, together with
/// the kill decision it returns.
pub open spec fn shutdown_post(pre: Supervisor, post: Supervisor, kill: bool) -> bool {
    &&& post.phase() is Terminated
    &&& !post.process().live()
    &&& post.process().stdout_taken() == pre.process().stdout_taken()
    &&& kill == pre.process().live()
}

impl Supervisor {
    /// Current lifecycle phase.
    pub closed spec fn phase(self) -> Phase {
        self.phase
    }

    /// Model of the owned child process.
    pub closed spec fn process(self) -> SupervisedProcess {
        self.process
    }

    /// Well-formed: a live worker handle exists only while starting or
    /// ready — at most one per supervisor, never before start and never
    /// after termination — and nothing exists at all while idle.
    pub open spec fn wf(self) -> bool {
        &&& self.phase() is Idle ==> !self.process().live() && !self.process().stdout_taken()
        &&& self.process().live() ==> self.phase() is Starting || self.phase() is Ready
    }

    /// A fresh supervisor: idle, no process.
    pub fn new() -> (s: Supervisor)
        ensures
            s.wf(),
            s.phase() is Idle,
            !s.process().live(),
            !s.process().stdout_taken(),
    {
        Supervisor { phase: Phase::Idle, process: SupervisedProcess::not_spawned() }
    }

    /// Enter `Starting` from `Idle`. Returns whether to proceed with the
    /// spawn: a supervisor that has already left `Idle` refuses a second
    /// start and is left unchanged.
    pub fn begin_start(&mut self) -> (proceed: bool)
        requires
            old(self).wf(),
        ensures
            final(self).wf(),
            proceed == (old(self).phase() is Idle),
            proceed ==> final(self).phase() is Starting,
            !proceed ==> final(self).phase() == old(self).phase(),
            final(self).process() == old(self).process(),
    {
        if matches!(self.phase, Phase::Idle) {
            self.phase = Phase::Starting;
            true
        } else {
            false
        }
    }

    /// Record the outcome of the spawn attempt. Success keeps the machine
    /// in `Starting` with a live process; failure moves it to
    /// `StartupFailed` and surfaces the fatal `SpawnFailed` error, carrying
    /// the OS-level cause, to the caller of start.
    pub fn record_spawn(&mut self, outcome: Result<(), String>) -> (r: Result<
        (),
        SupervisorError,
    >)
        requires
            old(self).wf(),
            old(self).phase() is Starting,
            !old(self).process().live(),
        ensures
            final(self).wf(),
            outcome is Ok ==> {
                &&& final(self).phase() is Starting
                &&& final(self).process().live()
                &&& !final(self).process().stdout_taken()
                &&& r is Ok
            },
            outcome is Err ==> {
                &&& final(self).phase() is StartupFailed
                &&& !final(self).process().live()
                &&& r == Err::<(), SupervisorError>(
                    SupervisorError::SpawnFailed(outcome->Err_0),
                )
            },
    {
        match outcome {
            Ok(()) => {
                self.process = SupervisedProcess::spawned();
                Ok(())
            },
            Err(cause) => {
                self.phase = Phase::StartupFailed;
                Err(SupervisorError::SpawnFailed(cause))
            },
        }
    }

    /// Hand out the worker's standard-output stream, exactly once.
    pub fn take_stdout(&mut self) -> (r: Result<(), SupervisorError>)
        requires
            old(self).wf(),
            old(self).process().live(),
        ensures
            final(self).wf(),
            final(self).phase() == old(self).phase(),
            final(self).process().live() == old(self).process().live(),
            final(self).process().stdout_taken(),
            r is Ok <==> !old(self).process().stdout_taken(),
            old(self).process().stdout_taken() ==> r == Err::<(), SupervisorError>(
                SupervisorError::StreamAlreadyTaken,
            ),
    {
        self.process.take_stdout()
    }

    /// The background reader's first readiness signal: `Starting -> Ready`.
    /// In any other phase — a signal racing a shutdown, or a duplicate — it
    /// changes nothing.
    pub fn note_ready(&mut self)
        requires
            old(self).wf(),
        ensures
            final(self).wf(),
            old(self).phase() is Starting ==> final(self).phase() is Ready,
            !(old(self).phase() is Starting) ==> final(self).phase() == old(self).phase(),
            final(self).process() == old(self).process(),
    {
        if matches!(self.phase, Phase::Starting) {
            self.phase = Phase::Ready;
        }
    }

    /// Shut down: always end `Terminated`, and kill exactly when a live
    /// handle exists. Total — safe before start completes, twice in a row,
    /// or after the worker has already exited — and it never errors.
    pub fn shutdown(&mut self) -> (kill: bool)
        requires
            old(self).wf(),
        ensures
            final(self).wf(),
            shutdown_post(*old(self), *final(self), kill),
    {
        self.phase = Phase::Terminated;
        self.process.terminate()
    }

    /// Current phase, for the host glue and for callers polling progress.
    pub fn current_phase(&self) -> (p: Phase)
        ensures
            p == self.phase(),
    {
        self.phase
    }

    /// Whether a live process handle exists.
    pub fn has_live_process(&self) -> (b: bool)
        ensures
            b == self.process().live(),
    {
        self.process.live
    }
}

/// Shutting down is idempotent: whatever state the first shutdown found, a
/// second one kills nothing and changes nothing.
pub proof fn lemma_shutdown_idempotent(
    a: Supervisor,
    b: Supervisor,
    c: Supervisor,
    k1: bool,
    k2: bool,
)
    requires
        shutdown_post(a, b, k1),
        shutdown_post(b, c, k2),
    ensures
        !k2,
        c.phase() == b.phase(),
        c.process().live() == b.process().live(),
        c.process().stdout_taken() == b.process().stdout_taken(),
{
}

} // verus!
