use rustboy::arithmetic::{AddSigned, ArithmeticUtil, ToSigned};

#[test]
fn test_u8_calc_half_carry() {
    assert_eq!(0b0000_1000u8.calc_half_carry(0b0000_1000), true);
    assert_eq!(0b0000_1110u8.calc_half_carry(0b0000_0001), false);
    assert_eq!(0b0000_1111u8.calc_half_carry(0b0000_0001), true);
}

#[test]
fn test_u8_calc_carry() {
    assert_eq!(0b1000_0000u8.calc_carry(0b1000_0000), true);
    assert_eq!(0b1111_1110u8.calc_carry(0b0000_0001), false);
    assert_eq!(0b1111_1111u8.calc_carry(0b0000_0001), true);
}

#[test]
fn test_u8_calc_half_borrow() {
    assert_eq!(0b0000_1000u8.calc_half_borrow(0b0000_1000), false);
    assert_eq!(0b0000_0000u8.calc_half_borrow(0b0000_0001), true);
    assert_eq!(0b0000_1000u8.calc_half_borrow(0b0000_1001), true);
    assert_eq!(0b0000_1110u8.calc_half_borrow(0b0000_1111), true);
}

#[test]
fn test_u8_calc_borrow() {
    assert_eq!(0b1000_0000u8.calc_borrow(0b1000_0000), false);
    assert_eq!(0b0000_0000u8.calc_borrow(0b0000_0001), true);
    assert_eq!(0b1000_0000u8.calc_borrow(0b1000_0001), true);
    assert_eq!(0b1111_1110u8.calc_borrow(0b1111_1111), true);
}

#[test]
fn test_to_signed_u16() {
    assert_eq!((0 as u8).to_signed_u16(), 0);
    assert_eq!((10 as u8).to_signed_u16(), 10);
    assert_eq!((-10 as i8 as u8).to_signed_u16(), 65526);
}

#[test]
fn test_to_unsigned_u16() {
    assert_eq!((0 as u8).to_unsigned_u16(), 0);
    assert_eq!((10 as u8).to_unsigned_u16(), 10);
    assert_eq!((-10 as i8 as u8).to_unsigned_u16(), 246);
}

#[test]
fn test_add_signed_u8() {
    assert_eq!(7u16.add_signed_u8(5), 12);
    assert_eq!(4u16.add_signed_u8(-3 as i8 as u8), 1);
    assert_eq!(300u16.add_signed_u8(-4 as i8 as u8), 296);
}

#[test]
fn sign_extension_boundaries() {
    assert_eq!(127u8.to_signed_u16(), 0x007F);
    assert_eq!(128u8.to_signed_u16(), 0xFF80);
    assert_eq!(255u8.to_signed_u16(), 0xFFFF);
    for v in 0..=255u8 {
        let expected = if v < 128 { v as u16 } else { 0xFF00 | v as u16 };
        assert_eq!(v.to_signed_u16(), expected);
    }
}

#[test]
fn word_flags_use_bit_eleven_and_fifteen() {
    assert_eq!(0x0FFFu16.calc_half_carry(0x0001), true);
    assert_eq!(0x0F00u16.calc_half_carry(0x00FF), false);
    assert_eq!(0xFFFFu16.calc_carry(0x0001), true);
    assert_eq!(0x7FFFu16.calc_carry(0x8000), false);
    assert_eq!(0xFFFFu16.add_signed_u16(2), 1);
}
