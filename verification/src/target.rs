//! The server to ask, as it is written on a command line: `host` or
//! `host:port`.
//!
//! The host is what stands before the first colon. What follows that colon
//! is the port, where it is a decimal number that fits sixteen bits, with or
//! without a plus sign before it; anything else stands for the default port.

use vstd::prelude::*;
use vstd::slice::slice_subrange;

verus! {

/// The port that a server listens on unless told otherwise.
pub const DEFAULT_PORT: u16 = 5154;

/// A server to ask: the length of the host name at the start of the
/// argument, and the port.
#[derive(Debug, Clone, Copy, PartialEq, Eq)]
pub struct Target {
    pub host_len: usize,
    pub port: u16,
}

/// Whether a byte is a decimal digit.
pub open spec fn is_digit(byte: u8) -> bool {
    0x30 <= byte <= 0x39
}

/// Whether every byte of a text is a decimal digit.
pub open spec fn all_digits(text: Seq<u8>) -> bool {
    forall|i: int| 0 <= i < text.len() ==> is_digit(#[trigger] text[i])
}

/// The number that a text of decimal digits stands for.
pub open spec fn digits_value(text: Seq<u8>) -> nat
    decreases text.len(),
{
    if text.len() == 0 {
        0
    } else {
        digits_value(text.drop_last()) * 10 + (text.last() - 0x30) as nat
    }
}

/// A text without the plus sign that may stand before a number.
pub open spec fn without_sign(text: Seq<u8>) -> Seq<u8> {
    if text.len() > 0 && text[0] == 0x2b {
        text.subrange(1, text.len() as int)
    } else {
        text
    }
}

/// The port that a text stands for: a number of at least one digit that is
/// at most 65535.
pub open spec fn spec_parse_port(text: Seq<u8>) -> Option<u16> {
    let digits = without_sign(text);
    if digits.len() > 0 && all_digits(digits) && digits_value(digits) <= 65535 {
        Some(digits_value(digits) as u16)
    } else {
        None
    }
}

/// Whether `at` is the place of the first colon of an argument, or its
/// length if it has none.
pub open spec fn is_host_end(arg: Seq<u8>, at: int) -> bool {
    &&& 0 <= at <= arg.len()
    &&& forall|i: int| 0 <= i < at ==> #[trigger] arg[i] != 0x3a
    &&& at < arg.len() ==> arg[at] == 0x3a
}

/// The port of an argument whose host ends at `host_len`.
pub open spec fn spec_target_port(arg: Seq<u8>, host_len: int) -> u16 {
    if host_len < arg.len() {
        match spec_parse_port(arg.subrange(host_len + 1, arg.len() as int)) {
            Some(port) => port,
            None => DEFAULT_PORT,
        }
    } else {
        DEFAULT_PORT
    }
}

/// The number of a longer text of digits is no less than that of its
/// beginning.
proof fn lemma_digits_value_grows(text: Seq<u8>, count: int)
    requires
        0 <= count <= text.len(),
        all_digits(text),
    ensures
        digits_value(text.subrange(0, count)) <= digits_value(text),
    decreases text.len() - count,
{
    if count < text.len() {
        let head = text.drop_last();
        assert(head.subrange(0, count) =~= text.subrange(0, count));
        assert(all_digits(head));
        lemma_digits_value_grows(head, count);
    } else {
        assert(text.subrange(0, count) =~= text);
    }
}

/// Reads a port.
pub fn parse_port(text: &[u8]) -> (r: Option<u16>)
    ensures
        r == spec_parse_port(text@),
{
    let digits = if text.len() > 0 && text[0] == 0x2b {
        slice_subrange(text, 1, text.len())
    } else {
        text
    };
    if digits.len() == 0 {
        return None;
    }
    let mut value: u32 = 0;
    let mut i: usize = 0;
    while i < digits.len()
        invariant
            i <= digits@.len(),
            digits@ == without_sign(text@),
            all_digits(digits@.subrange(0, i as int)),
            value == digits_value(digits@.subrange(0, i as int)),
            value <= 65535,
        decreases digits@.len() - i,
    {
        let byte = digits[i];
        if byte < 0x30 || byte > 0x39 {
            return None;
        }
        let ghost next = digits@.subrange(0, i + 1);
        assert(next.drop_last() =~= digits@.subrange(0, i as int));
        assert(all_digits(next)) by {
            assert forall|k: int| 0 <= k < next.len() implies is_digit(#[trigger] next[k]) by {
                if k < i {
                    assert(digits@.subrange(0, i as int)[k] == next[k]);
                }
            }
        }
        value = value * 10 + (byte - 0x30) as u32;
        if value > 65535 {
            proof {
                if all_digits(digits@) {
                    lemma_digits_value_grows(digits@, i + 1);
                }
            }
            return None;
        }
        i = i + 1;
    }
    assert(digits@.subrange(0, i as int) =~= digits@);
    Some(value as u16)
}

/// Reads an argument of the form `host` or `host:port`.
pub fn parse_target(arg: &[u8]) -> (r: Target)
    ensures
        is_host_end(arg@, r.host_len as int),
        r.port == spec_target_port(arg@, r.host_len as int),
{
    let mut at: usize = 0;
    while at < arg.len() && arg[at] != 0x3a
        invariant
            at <= arg@.len(),
            forall|i: int| 0 <= i < at ==> #[trigger] arg@[i] != 0x3a,
        decreases arg@.len() - at,
    {
        at = at + 1;
    }
    if at < arg.len() {
        let port = match parse_port(slice_subrange(arg, at + 1, arg.len())) {
            Some(port) => port,
            None => DEFAULT_PORT,
        };
        Target { host_len: at, port }
    } else {
        Target { host_len: at, port: DEFAULT_PORT }
    }
}

/// An argument has one host end and so one target.
pub proof fn lemma_host_end_is_unique(arg: Seq<u8>, a: int, b: int)
    requires
        is_host_end(arg, a),
        is_host_end(arg, b),
    ensures
        a == b,
{
    if a < b {
        assert(arg[a] != 0x3a);
    } else if b < a {
        assert(arg[b] != 0x3a);
    }
}

} // verus!
