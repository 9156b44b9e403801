//! Fixed-width text fields padded with NUL bytes.
//!
//! A text field holds UTF-8 followed by NUL bytes up to the field's width.
//! Its text is what the whole field decodes to, without the NUL characters
//! at its end. A field that is not UTF-8 has no text.

use crate::error::QueryError;
use vstd::prelude::*;
use vstd::slice::slice_subrange;
use vstd::string::StringSliceAdditionalSpecFns;
use vstd::utf8::{
    char_is_scalar, char_u32_cast, decode_first_scalar, decode_utf8, decode_utf8_first_scalar,
    decode_utf8_split, encode_scalar, encode_utf8_decode_utf8,
    is_char_boundary_iff_not_is_continuation_byte, is_scalar, pop_first_scalar,
    take_first_scalar, valid_utf8, valid_utf8_concat, valid_utf8_split,
};

verus! {

/// `bytes` without the NUL bytes at its end.
pub open spec fn trim_nul_bytes(bytes: Seq<u8>) -> Seq<u8>
    decreases bytes.len(),
{
    if bytes.len() > 0 && bytes.last() == 0 {
        trim_nul_bytes(bytes.drop_last())
    } else {
        bytes
    }
}

/// `text` without the NUL characters at its end.
pub open spec fn trim_nul_chars(text: Seq<char>) -> Seq<char>
    decreases text.len(),
{
    if text.len() > 0 && text.last() == '\0' {
        trim_nul_chars(text.drop_last())
    } else {
        text
    }
}

/// The text of a field: `None` when the field is not UTF-8.
pub open spec fn spec_decode_text(field: Seq<u8>) -> Option<Seq<char>> {
    if valid_utf8(field) {
        Some(trim_nul_chars(decode_utf8(field)))
    } else {
        None
    }
}

/// Calls `std::str::from_utf8`. The claim: it accepts exactly the byte
/// sequences that are valid UTF-8, and the string slice it returns has the
/// bytes that were passed in.
#[verifier::external_body]
pub(crate) fn utf8_to_str<'a>(bytes: &'a [u8]) -> (r: Option<&'a str>)
    ensures
        r is Some <==> valid_utf8(bytes@),
        r matches Some(s) ==> s.spec_bytes() == bytes@,
{
    match std::str::from_utf8(bytes) {
        Ok(s) => Some(s),
        Err(_) => None,
    }
}

/// A NUL byte at the end of a byte sequence neither makes nor breaks UTF-8,
/// and decodes to a NUL character at the end of the text.
proof fn lemma_push_nul(bytes: Seq<u8>)
    ensures
        valid_utf8(bytes.push(0u8)) <==> valid_utf8(bytes),
        valid_utf8(bytes) ==> decode_utf8(bytes.push(0u8)) == decode_utf8(bytes).push('\0'),
{
    let nul = seq![0u8];
    let whole = bytes.push(0u8);
    let at = bytes.len() as int;
    assert(whole =~= bytes + nul);
    assert(valid_utf8(nul) && decode_utf8(nul) =~= seq!['\0']) by {
        reveal_with_fuel(valid_utf8, 2);
        reveal_with_fuel(decode_utf8, 2);
        assert(0u8 & 0x7F == 0u8) by (bit_vector);
        assert(pop_first_scalar(nul) =~= Seq::<u8>::empty());
    }
    if valid_utf8(bytes) {
        valid_utf8_concat(bytes, nul);
    }
    if valid_utf8(whole) {
        is_char_boundary_iff_not_is_continuation_byte(whole, at);
        valid_utf8_split(whole, at);
        decode_utf8_split(whole, at);
        assert(whole.subrange(0, at) =~= bytes);
        assert(whole.subrange(at, whole.len() as int) =~= nul);
        assert(decode_utf8(whole) =~= decode_utf8(bytes).push('\0'));
    }
}

/// The last byte of the UTF-8 encoding of a scalar is NUL exactly when the
/// scalar is zero.
proof fn lemma_last_byte_of_scalar(scalar: u32)
    requires
        is_scalar(scalar),
    ensures
        encode_scalar(scalar).len() > 0,
        encode_scalar(scalar).last() == 0 <==> scalar == 0,
{
    assert(scalar <= 0x7F ==> (((scalar & 0x7F) as u8) == 0 <==> scalar == 0)) by (bit_vector);
    assert((0x80u8 | (scalar & 0x3F) as u8) != 0) by (bit_vector);
}

/// The text of a non-empty UTF-8 sequence is not empty, and it ends in a NUL
/// character exactly when the bytes end in a NUL byte.
proof fn lemma_last_char(bytes: Seq<u8>)
    requires
        valid_utf8(bytes),
        bytes.len() > 0,
    ensures
        decode_utf8(bytes).len() > 0,
        decode_utf8(bytes).last() == '\0' <==> bytes.last() == 0,
    decreases bytes.len(),
{
    let rest = pop_first_scalar(bytes);
    let first = decode_first_scalar(bytes) as char;
    assert(decode_utf8(bytes) =~= seq![first] + decode_utf8(rest));
    if rest.len() == 0 {
        assert(decode_utf8(rest) =~= Seq::<char>::empty());
        assert(take_first_scalar(bytes) =~= bytes);
        decode_utf8_first_scalar(bytes);
        char_is_scalar(first);
        lemma_last_byte_of_scalar(first as u32);
        char_u32_cast(first, first as u32);
        char_u32_cast('\0', 0u32);
    } else {
        lemma_last_char(rest);
        assert(bytes.last() == rest.last());
    }
}

/// Trimming NUL bytes before decoding gives what trimming NUL characters
/// after decoding gives, and neither changes whether the bytes are UTF-8.
pub proof fn lemma_trim_before_or_after(bytes: Seq<u8>)
    ensures
        valid_utf8(trim_nul_bytes(bytes)) <==> valid_utf8(bytes),
        valid_utf8(bytes) ==> decode_utf8(trim_nul_bytes(bytes)) == trim_nul_chars(
            decode_utf8(bytes),
        ),
    decreases bytes.len(),
{
    if bytes.len() > 0 && bytes.last() == 0 {
        let head = bytes.drop_last();
        assert(bytes =~= head.push(0u8));
        lemma_push_nul(head);
        lemma_trim_before_or_after(head);
        if valid_utf8(bytes) {
            assert(decode_utf8(bytes).drop_last() =~= decode_utf8(head));
        }
    } else if bytes.len() > 0 {
        if valid_utf8(bytes) {
            lemma_last_char(bytes);
        }
    } else {
        assert(decode_utf8(bytes) =~= Seq::<char>::empty());
    }
}

/// The trimmed form of a byte sequence is the part before a cut, when only
/// NUL bytes follow the cut and none stands right before it.
proof fn lemma_trim_at_cut(bytes: Seq<u8>, cut: int)
    requires
        0 <= cut <= bytes.len(),
        forall|i: int| cut <= i < bytes.len() ==> bytes[i] == 0,
        cut > 0 ==> bytes[cut - 1] != 0,
    ensures
        trim_nul_bytes(bytes) == bytes.subrange(0, cut),
    decreases bytes.len() - cut,
{
    if cut < bytes.len() {
        let head = bytes.drop_last();
        lemma_trim_at_cut(head, cut);
        assert(head.subrange(0, cut) =~= bytes.subrange(0, cut));
    } else {
        assert(bytes.subrange(0, cut) =~= bytes);
    }
}

/// A sequence of `count` NUL bytes.
pub open spec fn nul_padding(count: nat) -> Seq<u8> {
    Seq::new(count, |i: int| 0u8)
}

/// A text that does not itself end in a NUL byte, padded with any number of
/// NUL bytes, decodes to that text: the padding leaves no trace.
pub proof fn lemma_padding_leaves_no_trace(text: Seq<u8>, padding: nat)
    requires
        valid_utf8(text),
        text.len() > 0 ==> text.last() != 0,
    ensures
        spec_decode_text(text + nul_padding(padding)) == Some(decode_utf8(text)),
{
    let field = text + nul_padding(padding);
    lemma_trim_at_cut(field, text.len() as int);
    assert(field.subrange(0, text.len() as int) =~= text);
    lemma_trim_before_or_after(field);
}

/// Decodes a NUL-padded text field.
///
/// The result is the field's text without its trailing NUL characters. A
/// field that is not valid UTF-8 is a text decode error.
pub fn decode_text(field: &[u8]) -> (r: Result<String, QueryError>)
    ensures
        match spec_decode_text(field@) {
            Some(text) => r matches Ok(s) && s@ == text,
            None => r == Err::<String, QueryError>(QueryError::TextDecode),
        },
{
    let mut cut: usize = field.len();
    while cut > 0 && field[cut - 1] == 0
        invariant
            cut <= field@.len(),
            forall|i: int| cut <= i < field@.len() ==> field@[i] == 0,
        decreases cut,
    {
        cut = cut - 1;
    }
    let head = slice_subrange(field, 0, cut);
    proof {
        lemma_trim_at_cut(field@, cut as int);
        lemma_trim_before_or_after(field@);
    }
    match utf8_to_str(head) {
        Some(s) => {
            proof {
                encode_utf8_decode_utf8(s@);
            }
            Ok(s.to_owned())
        },
        None => Err(QueryError::TextDecode),
    }
}

} // verus!
