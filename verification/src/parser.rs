//! Stateless parser for the worker's readiness signal.
//!
//! The wire contract is a single line of bytes exactly matching
//! `PORT:<digits>`, where `<digits>` is a base-10 unsigned integer of at
//! most 65535. Any other line carries no signal.

use vstd::prelude::*;

verus! {

/// The fixed prefix of a readiness line: the bytes of `PORT:`.
pub open spec fn port_prefix() -> Seq<u8> {
    seq![80u8, 79u8, 82u8, 84u8, 58u8]
}

/// The largest value a 16-bit port can take.
pub const MAX_PORT: u16 = 65535;

pub open spec fn is_ascii_digit(b: u8) -> bool {
    48u8 <= b && b <= 57u8
}

pub open spec fn digit_value(b: u8) -> int {
    b - 48u8
}

pub open spec fn all_digits(s: Seq<u8>) -> bool {
    forall|i: int| 0 <= i < s.len() ==> is_ascii_digit(#[trigger] s[i])
}

/// Numeric value of a sequence of decimal digit bytes, most significant first.
pub open spec fn decimal_value(s: Seq<u8>) -> int
    decreases s.len(),
{
    if s.len() == 0 {
        0
    } else {
        decimal_value(s.drop_last()) * 10 + digit_value(s.last())
    }
}

/// A readiness line: the prefix immediately followed by one or more decimal
/// digits whose value fits in 16 bits.
pub open spec fn is_readiness_line(s: Seq<u8>) -> bool {
    &&& s.len() > port_prefix().len()
    &&& s.subrange(0, port_prefix().len() as int) == port_prefix()
    &&& all_digits(s.skip(port_prefix().len() as int))
    &&& decimal_value(s.skip(port_prefix().len() as int)) <= MAX_PORT
}

/// The port carried by a readiness line.
pub open spec fn line_port(s: Seq<u8>) -> int {
    decimal_value(s.skip(port_prefix().len() as int))
}

/// What parsing a line yields: the port for a readiness line, nothing else.
pub open spec fn spec_parse_port(s: Seq<u8>) -> Option<u16> {
    if is_readiness_line(s) {
        Some(line_port(s) as u16)
    } else {
        None
    }
}

proof fn lemma_decimal_value_nonneg(s: Seq<u8>)
    requires
        all_digits(s),
    ensures
        decimal_value(s) >= 0,
    decreases s.len(),
{
    if s.len() > 0 {
        assert forall|i: int| 0 <= i < s.drop_last().len() implies is_ascii_digit(
            #[trigger] s.drop_last()[i],
        ) by {
            assert(s.drop_last()[i] == s[i]);
        }
        lemma_decimal_value_nonneg(s.drop_last());
    }
}

/// Reading more digits can only grow the value: the value of a digit string
/// is at least the value of any of its prefixes.
proof fn lemma_decimal_value_prefix_le(s: Seq<u8>, j: int)
    requires
        all_digits(s),
        0 <= j <= s.len(),
    ensures
        decimal_value(s.take(j)) <= decimal_value(s),
    decreases s.len() - j,
{
    if j == s.len() {
        assert(s.take(j) =~= s);
    } else {
        assert forall|i: int| 0 <= i < s.take(j).len() implies is_ascii_digit(
            #[trigger] s.take(j)[i],
        ) by {
            assert(s.take(j)[i] == s[i]);
        }
        lemma_decimal_value_nonneg(s.take(j));
        assert(s.take(j + 1).drop_last() =~= s.take(j));
        assert(s.take(j + 1).last() == s[j]);
        assert(decimal_value(s.take(j + 1)) == decimal_value(s.take(j)) * 10 + digit_value(s[j]));
        lemma_decimal_value_prefix_le(s, j + 1);
    }
}

/// The decimal digit bytes of `n`, most significant first, without leading
/// zeros (a single `0` for zero itself).
pub open spec fn decimal_digits(n: int) -> Seq<u8>
    recommends
        0 <= n,
    decreases n,
{
    if n < 10 {
        seq![(n + 48) as u8]
    } else {
        decimal_digits(n / 10).push((n % 10 + 48) as u8)
    }
}

/// The digit string rendered for `n` is non-empty, all digits, and carries
/// exactly the value `n`.
pub proof fn lemma_decimal_digits_value(n: int)
    requires
        0 <= n,
    ensures
        decimal_digits(n).len() >= 1,
        all_digits(decimal_digits(n)),
        decimal_value(decimal_digits(n)) == n,
    decreases n,
{
    let s = decimal_digits(n);
    if n < 10 {
        assert(s == seq![(n + 48) as u8]);
        assert(s.len() == 1);
        assert(s.drop_last() =~= Seq::<u8>::empty());
        assert(s.last() == (n + 48) as u8);
        assert(decimal_value(s.drop_last()) == 0);
        assert(digit_value((n + 48) as u8) == n);
    } else {
        lemma_decimal_digits_value(n / 10);
        let head = decimal_digits(n / 10);
        let d = (n % 10 + 48) as u8;
        assert(s == head.push(d));
        assert(s.drop_last() =~= head);
        assert(s.last() == d);
        assert forall|i: int| 0 <= i < s.len() implies is_ascii_digit(#[trigger] s[i]) by {
            if i < head.len() {
                assert(s[i] == head[i]);
            }
        }
        vstd::arithmetic::div_mod::lemma_fundamental_div_mod(n, 10);
        assert(digit_value(d) == n % 10);
        assert(decimal_value(s) == decimal_value(head) * 10 + digit_value(d));
    }
}

/// The canonical readiness line announcing port `p`.
pub open spec fn port_line(p: u16) -> Seq<u8> {
    port_prefix() + decimal_digits(p as int)
}

/// Round trip: for every port `p`, the line `PORT:<p>` parses back to `p`.
pub proof fn lemma_port_line_round_trip(p: u16)
    ensures
        spec_parse_port(port_line(p)) == Some(p),
{
    lemma_decimal_digits_value(p as int);
    let s = port_line(p);
    assert(s.subrange(0, 5) =~= port_prefix());
    assert(s.skip(5) =~= decimal_digits(p as int));
}

/// Parse one output line.
///
/// Returns the port exactly when the line is the readiness signal
/// `PORT:<digits>` with a value of at most 65535; every other line — wrong
/// prefix, empty suffix, a non-digit in the suffix, or a value out of 16-bit
/// range — yields `None`.
pub fn parse_readiness_line(line: &[u8]) -> (r: Option<u16>)
    ensures
        r == spec_parse_port(line@),
        r is Some <==> is_readiness_line(line@),
{
    if line.len() < 6 {
        return None;
    }
    if line[0] != 80u8 || line[1] != 79u8 || line[2] != 82u8 || line[3] != 84u8 || line[4]
        != 58u8 {
        proof {
            if is_readiness_line(line@) {
                assert(line@.subrange(0, 5)[0] == line@[0]);
                assert(line@.subrange(0, 5)[1] == line@[1]);
                assert(line@.subrange(0, 5)[2] == line@[2]);
                assert(line@.subrange(0, 5)[3] == line@[3]);
                assert(line@.subrange(0, 5)[4] == line@[4]);
            }
        }
        return None;
    }
    let mut i: usize = 5;
    let mut acc: u32 = 0;
    while i < line.len()
        invariant
            5 <= i <= line@.len(),
            acc <= MAX_PORT,
            all_digits(line@.subrange(5, i as int)),
            acc == decimal_value(line@.subrange(5, i as int)),
        decreases line@.len() - i,
    {
        let b = line[i];
        if b < 48u8 || b > 57u8 {
            proof {
                assert(line@.skip(5)[i - 5] == line@[i as int]);
            }
            return None;
        }
        proof {
            assert(line@.subrange(5, i + 1).drop_last() =~= line@.subrange(5, i as int));
            assert(line@.subrange(5, i + 1).last() == line@[i as int]);
            assert forall|k: int| 0 <= k < line@.subrange(5, i + 1).len() implies is_ascii_digit(
                #[trigger] line@.subrange(5, i + 1)[k],
            ) by {
                assert(line@.subrange(5, i + 1)[k] == line@[5 + k]);
                if k < i - 5 {
                    assert(line@.subrange(5, i as int)[k] == line@[5 + k]);
                }
            }
        }
        acc = acc * 10 + (b - 48u8) as u32;
        if acc > 65535 {
            proof {
                if is_readiness_line(line@) {
                    lemma_decimal_value_prefix_le(line@.skip(5), i + 1 - 5);
                    assert(line@.skip(5).take(i + 1 - 5) =~= line@.subrange(5, i + 1));
                }
            }
            return None;
        }
        i += 1;
    }
    proof {
        assert(line@.subrange(5, i as int) =~= line@.skip(5));
        assert(line@.subrange(0, 5) =~= port_prefix());
    }
    Some(acc as u16)
}

} // verus!
