use starks_vm::utils::{as_bytes, element_from_bytes, element_to_bytes, ELEMENT_BYTES};

#[test]
fn as_bytes_is_little_endian() {
    let bytes = as_bytes(&[1u128, 2, 3, 4]);
    assert_eq!(64, bytes.len());
    for (i, b) in bytes.iter().enumerate() {
        let expected = if i % 16 == 0 { (i / 16 + 1) as u8 } else { 0 };
        assert_eq!(expected, *b);
    }
    assert_eq!(
        vec![0x10, 0x0f, 0x0e, 0x0d, 0x0c, 0x0b, 0x0a, 0x09, 0x08, 0x07, 0x06, 0x05, 0x04, 0x03, 0x02, 0x01],
        as_bytes(&[0x0102030405060708090a0b0c0d0e0f10u128])
    );
    assert_eq!(Vec::<u8>::new(), as_bytes(&[]));
}

#[test]
fn as_bytes_agrees_with_std() {
    let values = [0u128, 1, u128::MAX, 340282366920938463463374557953744961536, 1 << 64];
    let mut expected = Vec::new();
    for v in values {
        expected.extend_from_slice(&v.to_le_bytes());
    }
    assert_eq!(expected, as_bytes(&values));
}

#[test]
fn element_to_bytes_exact() {
    assert_eq!(16, ELEMENT_BYTES);
    assert_eq!([0u8; 16], element_to_bytes(0));
    assert_eq!([0xffu8; 16], element_to_bytes(u128::MAX));
    assert_eq!(
        [0x34, 0x12, 0, 0, 0, 0, 0, 0, 0, 0, 0, 0, 0, 0, 0, 0x80],
        element_to_bytes((0x80u128 << 120) | 0x1234)
    );
}

#[test]
fn element_from_bytes_exact() {
    let bytes = as_bytes(&[7u128, u128::MAX, 0x0102030405060708090a0b0c0d0e0f10]);
    assert_eq!(7, element_from_bytes(&bytes, 0));
    assert_eq!(u128::MAX, element_from_bytes(&bytes, 1));
    assert_eq!(0x0102030405060708090a0b0c0d0e0f10, element_from_bytes(&bytes, 2));
}

#[test]
fn element_from_bytes_reads_zero_past_the_end() {
    assert_eq!(0, element_from_bytes(&[], 0));
    assert_eq!(0xff, element_from_bytes(&[0xff], 0));
    assert_eq!(0x0201, element_from_bytes(&[1, 2], 0));
    assert_eq!(0, element_from_bytes(&[1, 2], 1));
    let mut bytes = vec![0u8; 17];
    bytes[16] = 9;
    assert_eq!(9, element_from_bytes(&bytes, 1));
    assert_eq!(0, element_from_bytes(&bytes, 2));
}

#[test]
fn bytes_round_trip() {
    for v in [0u128, 1, 255, 256, 1 << 127, u128::MAX, 340282366920938463463374557953744961537] {
        assert_eq!(v, element_from_bytes(&element_to_bytes(v), 0));
        assert_eq!(v.to_le_bytes(), element_to_bytes(v));
    }
}
