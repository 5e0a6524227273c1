use libiguana::wire::{
    push_bytes, push_u16_le, push_u32_le, read_u32_le, u32_from_le_bytes, u32_to_le_bytes,
};

#[test]
fn u32_bytes_come_least_significant_first() {
    assert_eq!(u32_to_le_bytes(0x1234_5678), [0x78, 0x56, 0x34, 0x12]);
    assert_eq!(u32_to_le_bytes(0), [0, 0, 0, 0]);
    assert_eq!(u32_to_le_bytes(u32::MAX), [0xFF, 0xFF, 0xFF, 0xFF]);
    assert_eq!(u32_to_le_bytes(256), [0, 1, 0, 0]);
}

#[test]
fn u32_bytes_agree_with_the_standard_library() {
    for value in [0u32, 1, 255, 256, 65_535, 65_536, 0x00FF_FF00, 0xDEAD_BEEF, u32::MAX] {
        assert_eq!(u32_to_le_bytes(value), value.to_le_bytes());
        assert_eq!(u32_from_le_bytes(value.to_le_bytes()), value);
    }
}

#[test]
fn u32_decoding_undoes_encoding() {
    for value in [0u32, 7, 0x8000_0000, 0x0102_0304, u32::MAX] {
        assert_eq!(u32_from_le_bytes(u32_to_le_bytes(value)), value);
    }
    for bytes in [[0u8, 0, 0, 0], [1, 2, 3, 4], [0xFF, 0, 0xFF, 0], [0xFF; 4]] {
        assert_eq!(u32_to_le_bytes(u32_from_le_bytes(bytes)), bytes);
    }
}

#[test]
fn push_u16_appends_two_bytes() {
    let mut out = vec![9u8];
    push_u16_le(&mut out, 0x0102);
    assert_eq!(out, vec![9, 0x02, 0x01]);
    push_u16_le(&mut out, u16::MAX);
    assert_eq!(out, vec![9, 0x02, 0x01, 0xFF, 0xFF]);
}

#[test]
fn push_u32_appends_four_bytes() {
    let mut out = Vec::new();
    push_u32_le(&mut out, 1234);
    assert_eq!(out, vec![0xD2, 0x04, 0, 0]);
    push_u32_le(&mut out, 0xAABB_CCDD);
    assert_eq!(out, vec![0xD2, 0x04, 0, 0, 0xDD, 0xCC, 0xBB, 0xAA]);
}

#[test]
fn push_bytes_appends_a_copy() {
    let mut out = vec![1u8, 2];
    push_bytes(&mut out, &[3, 4, 5]);
    assert_eq!(out, vec![1, 2, 3, 4, 5]);
    push_bytes(&mut out, &[]);
    assert_eq!(out, vec![1, 2, 3, 4, 5]);
}

#[test]
fn read_u32_reads_at_the_offset() {
    let bytes = [0xAAu8, 0x78, 0x56, 0x34, 0x12, 0xD2, 0x04, 0x00, 0x00];
    assert_eq!(read_u32_le(&bytes, 1), 0x1234_5678);
    assert_eq!(read_u32_le(&bytes, 5), 1234);
    assert_eq!(read_u32_le(&bytes, 0), 0x3456_78AA);
}
