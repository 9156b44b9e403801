//! Big-endian 16-bit fields addressed by slot.
//!
//! A slot is a zero-based index counted in units of two bytes: slot `i` of a
//! buffer covers the bytes at offsets `2 * i` and `2 * i + 1`.

use crate::error::QueryError;
use vstd::prelude::*;

verus! {

/// Whether `bytes` is long enough to hold slot `slot`.
pub open spec fn slot_in_bounds(bytes: Seq<u8>, slot: int) -> bool {
    0 <= slot && 2 * slot + 2 <= bytes.len()
}

/// The value of two bytes read as a big-endian 16-bit integer.
pub open spec fn be16(hi: u8, lo: u8) -> u16 {
    (hi as int * 256 + lo as int) as u16
}

/// The more significant byte of `value`.
pub open spec fn high_byte(value: u16) -> u8 {
    (value as int / 256) as u8
}

/// The less significant byte of `value`.
pub open spec fn low_byte(value: u16) -> u8 {
    (value as int % 256) as u8
}

/// The 16-bit value stored at slot `slot` of `bytes`.
pub open spec fn spec_unpack_u16(bytes: Seq<u8>, slot: int) -> u16
    recommends
        slot_in_bounds(bytes, slot),
{
    be16(bytes[2 * slot], bytes[2 * slot + 1])
}

/// `bytes` with `value` stored at slot `slot`; every other byte is kept.
pub open spec fn spec_pack_u16(bytes: Seq<u8>, slot: int, value: u16) -> Seq<u8>
    recommends
        slot_in_bounds(bytes, slot),
{
    bytes.update(2 * slot, high_byte(value)).update(2 * slot + 1, low_byte(value))
}

/// Shifting and or-ing two bytes together gives their big-endian value.
proof fn lemma_be16_bits(hi: u8, lo: u8)
    ensures
        ((hi as u16) << 8) | (lo as u16) == be16(hi, lo),
{
    assert(((hi as u16) << 8) | (lo as u16) == (hi as u16) * 256 + (lo as u16)) by (bit_vector);
}

/// Shifting and truncating a 16-bit value gives its two bytes.
proof fn lemma_split_bits(value: u16)
    ensures
        (value >> 8) as u8 == high_byte(value),
        (value & 0xff) as u8 == low_byte(value),
{
    assert((value >> 8) == value / 256) by (bit_vector);
    assert((value & 0xff) == value % 256) by (bit_vector);
}

/// Reads the slot `index` of a buffer that is known to hold it.
pub(crate) fn read_slot(bytes: &[u8], index: usize) -> (r: u16)
    requires
        slot_in_bounds(bytes@, index as int),
    ensures
        r == spec_unpack_u16(bytes@, index as int),
{
    assert(2 * index + 2 <= bytes.len());
    let hi = bytes[index * 2];
    let lo = bytes[index * 2 + 1];
    proof {
        lemma_be16_bits(hi, lo);
    }
    ((hi as u16) << 8) | (lo as u16)
}

/// Reads the big-endian 16-bit value at slot `index` of `bytes`.
///
/// A buffer that ends before the slot does is a truncated frame.
pub fn unpack_u16(bytes: &[u8], index: usize) -> (r: Result<u16, QueryError>)
    ensures
        slot_in_bounds(bytes@, index as int) ==> r == Ok::<u16, QueryError>(
            spec_unpack_u16(bytes@, index as int),
        ),
        !slot_in_bounds(bytes@, index as int) ==> r == Err::<u16, QueryError>(
            QueryError::TruncatedFrame,
        ),
{
    let len = bytes.len();
    if len < 2 || index > (len - 2) / 2 {
        return Err(QueryError::TruncatedFrame);
    }
    Ok(read_slot(bytes, index))
}

/// Stores `value` big-endian at slot `index` of `bytes`.
///
/// A buffer that ends before the slot does is left untouched and reported as
/// a truncated frame.
pub fn pack_u16(bytes: &mut [u8], index: usize, value: u16) -> (r: Result<(), QueryError>)
    ensures
        slot_in_bounds(old(bytes)@, index as int) ==> r == Ok::<(), QueryError>(())
            && final(bytes)@ == spec_pack_u16(old(bytes)@, index as int, value),
        !slot_in_bounds(old(bytes)@, index as int) ==> r == Err::<(), QueryError>(
            QueryError::TruncatedFrame,
        ) && final(bytes)@ == old(bytes)@,
{
    let len = bytes.len();
    if len < 2 || index > (len - 2) / 2 {
        return Err(QueryError::TruncatedFrame);
    }
    proof {
        lemma_split_bits(value);
    }
    bytes[index * 2] = (value >> 8) as u8;
    bytes[index * 2 + 1] = (value & 0xff) as u8;
    Ok(())
}

/// Storing a value at a slot and reading that slot gives the value back.
pub proof fn lemma_pack_unpack_roundtrip(bytes: Seq<u8>, slot: int, value: u16)
    requires
        slot_in_bounds(bytes, slot),
    ensures
        slot_in_bounds(spec_pack_u16(bytes, slot, value), slot),
        spec_unpack_u16(spec_pack_u16(bytes, slot, value), slot) == value,
{
}

/// Storing a value at one slot leaves every other slot as it was.
pub proof fn lemma_pack_keeps_other_slots(bytes: Seq<u8>, slot: int, value: u16, other: int)
    requires
        slot_in_bounds(bytes, slot),
        slot_in_bounds(bytes, other),
        other != slot,
    ensures
        spec_unpack_u16(spec_pack_u16(bytes, slot, value), other) == spec_unpack_u16(bytes, other),
{
}

} // verus!
