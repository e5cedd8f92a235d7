use shiro51::bits::BitOps;

#[test]
fn get_bit() {
    let byte: u8 = 0x8a;

    assert_eq!(byte.get_bit(1), 1);
    assert_eq!(byte.get_bit(3), 1);
    assert_eq!(byte.get_bit(7), 1);
}

#[test]
fn set_bit() {
    let mut byte = 0u8;

    byte.set_bit(1);
    assert_eq!(byte, 2);
}

#[test]
fn get_bit_reads_clear_bits_as_zero() {
    let byte: u8 = 0x8a;

    assert_eq!(byte.get_bit(0), 0);
    assert_eq!(byte.get_bit(2), 0);
    assert_eq!(byte.get_bit(6), 0);
    assert!(byte.is_bit_set(7));
    assert!(!byte.is_bit_set(0));
}

#[test]
fn clear_bit_clears_one_bit() {
    let mut byte = 0xffu8;

    byte.clear_bit(0);
    assert_eq!(byte, 0xfe);
    byte.clear_bit(7);
    assert_eq!(byte, 0x7e);
    byte.set_bit(7);
    assert_eq!(byte, 0xfe);
}

#[test]
fn bit_ranges_keep_only_their_bits() {
    let byte: u8 = 0b1011_0110;

    assert_eq!(byte.get_bits_exclusive(0..4), 0b0000_0110);
    assert_eq!(byte.get_bits_exclusive(4..8), 0b1011_0000);
    assert_eq!(byte.get_bits_exclusive(3..3), 0);
    assert_eq!(byte.get_bits_inclusive(1, 2), 0b0000_0110);
    assert_eq!(byte.get_bits_inclusive(0, 7), byte);
    assert_eq!(byte.get_bits_inclusive(5, 4), 0);
}

#[test]
fn bytes_to_signed_numbers() {
    assert_eq!(0u8.to_signed(), 0);
    assert_eq!(127u8.to_signed(), 127);
    assert_eq!(128u8.to_signed(), -128);
    assert_eq!(0xf9u8.to_signed(), -7);
    assert_eq!(255u8.to_signed(), -1);
}

#[test]
fn bit_addressable_bytes() {
    assert!(!0x1fu8.is_bit_addressable());
    assert!(0x20u8.is_bit_addressable());
    assert!(0x2fu8.is_bit_addressable());
    assert!(!0x30u8.is_bit_addressable());
    assert!(!0x7fu8.is_bit_addressable());
    assert!(0x80u8.is_bit_addressable());
    assert!(!0x81u8.is_bit_addressable());
    assert!(0xf8u8.is_bit_addressable());
    assert!(!0xffu8.is_bit_addressable());
}
