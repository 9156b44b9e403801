use bzfquery::error::QueryError;
use bzfquery::field::{pack_u16, unpack_u16};

#[test]
fn unpack_reads_big_endian() {
    let bytes = [0x12u8, 0x34, 0x56, 0x78];
    assert_eq!(unpack_u16(&bytes, 0), Ok(0x1234));
    assert_eq!(unpack_u16(&bytes, 1), Ok(0x5678));
}

#[test]
fn unpack_high_byte_counts_256() {
    assert_eq!(unpack_u16(&[0x01, 0x00], 0), Ok(256));
    assert_eq!(unpack_u16(&[0x00, 0x01], 0), Ok(1));
    assert_eq!(unpack_u16(&[0xff, 0xff], 0), Ok(65535));
}

#[test]
fn unpack_past_the_end_is_truncated() {
    let bytes = [0x12u8, 0x34, 0x56];
    assert_eq!(unpack_u16(&bytes, 1), Err(QueryError::TruncatedFrame));
    assert_eq!(unpack_u16(&bytes, usize::MAX), Err(QueryError::TruncatedFrame));
    assert_eq!(unpack_u16(&[], 0), Err(QueryError::TruncatedFrame));
    assert_eq!(unpack_u16(&[7], 0), Err(QueryError::TruncatedFrame));
}

#[test]
fn pack_then_unpack_gives_the_value_back() {
    let mut bytes = vec![0u8; 8];
    assert_eq!(pack_u16(&mut bytes, 2, 0xbeef), Ok(()));
    assert_eq!(bytes, vec![0, 0, 0, 0, 0xbe, 0xef, 0, 0]);
    assert_eq!(unpack_u16(&bytes, 2), Ok(0xbeef));
}

#[test]
fn pack_round_trips_at_every_slot() {
    let values = [0u16, 1, 255, 256, 0x1234, 0x8000, 0xfffe, 0xffff];
    for slot in 0..4 {
        for value in values {
            let mut bytes = vec![0xaau8; 8];
            assert_eq!(pack_u16(&mut bytes, slot, value), Ok(()));
            assert_eq!(unpack_u16(&bytes, slot), Ok(value));
            for other in 0..4 {
                if other != slot {
                    assert_eq!(unpack_u16(&bytes, other), Ok(0xaaaa));
                }
            }
        }
    }
}

#[test]
fn pack_past_the_end_changes_nothing() {
    let mut bytes = vec![1u8, 2, 3];
    assert_eq!(pack_u16(&mut bytes, 1, 0xffff), Err(QueryError::TruncatedFrame));
    assert_eq!(bytes, vec![1, 2, 3]);
    assert_eq!(pack_u16(&mut bytes, usize::MAX, 0), Err(QueryError::TruncatedFrame));
    assert_eq!(bytes, vec![1, 2, 3]);
}
