use doukutsu_core::bytes::{push_u16_le, push_u32_be, push_u64_be, push_u64_le, push_zeros, ByteReader};

#[test]
fn pushes_in_byte_order() {
    let mut out = Vec::new();
    push_u16_le(&mut out, 0x1234);
    push_u32_be(&mut out, 0x0A0B0C0D);
    push_u64_le(&mut out, 0x0102030405060708);
    push_zeros(&mut out, 2);
    assert_eq!(out, vec![0x34, 0x12, 0x0A, 0x0B, 0x0C, 0x0D, 8, 7, 6, 5, 4, 3, 2, 1, 0, 0]);
}

#[test]
fn reader_reads_back() {
    let mut out = Vec::new();
    push_u64_be(&mut out, 0x446f303431323230);
    out.extend_from_slice(&[1, 2, 3]);
    let mut r = ByteReader::new(&out);
    assert_eq!(r.read_u64_be(), Some(0x446f303431323230));
    assert_eq!(r.read_u16_le(), Some(0x0201));
    assert_eq!(r.read_u32_le(), None);
    // A failed read leaves the reader at the end.
    assert_eq!(r.pos, out.len());
    assert_eq!(r.read_u8(), None);
}

#[test]
fn skipping() {
    let data = [0u8; 10];
    let mut r = ByteReader::new(&data);
    assert!(r.skip_exact(4));
    assert_eq!(r.skip_up_to(100), 6);
    assert!(!r.skip_exact(1));
}
