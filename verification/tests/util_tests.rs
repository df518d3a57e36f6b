use jameboy::util::{bit, half_carried_add16, half_carried_add8, half_carried_sub8, set_bits, u16_to_u8, u8_to_u16};

#[test]
fn test_u8_to_u16() {
    assert_eq!(0x0000, u8_to_u16(0x00, 0x00));
    assert_eq!(0xFFFF, u8_to_u16(0xFF, 0xFF));
    assert_eq!(0x00FF, u8_to_u16(0x00, 0xFF));
    assert_eq!(0xFF00, u8_to_u16(0xFF, 0x00));
    assert_eq!(0x4A2F, u8_to_u16(0x4A, 0x2F));
}

#[test]
fn test_u16_to_u8() {
    assert_eq!((0x00, 0x00), u16_to_u8(0x0000));
    assert_eq!((0xFF, 0xFF), u16_to_u8(0xFFFF));
    assert_eq!((0x00, 0xFF), u16_to_u8(0x00FF));
    assert_eq!((0xFF, 0x00), u16_to_u8(0xFF00));
    assert_eq!((0x4A, 0x2F), u16_to_u8(0x4A2F));
}

#[test]
fn test_half_carried_add8() {
    assert_eq!(false, half_carried_add8(0b00000000, 0b00000000));
    assert_eq!(false, half_carried_add8(0b00000000, 0b00000001));
    assert_eq!(false, half_carried_add8(0b00000001, 0b00000000));
    assert_eq!(true, half_carried_add8(0b00001010, 0b00001100));
    assert_eq!(true, half_carried_add8(0b00000110, 0b00001100));
}

#[test]
fn test_half_carried_sub8() {
    assert_eq!(false, half_carried_sub8(0b00000000, 0b00000000));
    assert_eq!(false, half_carried_sub8(0b00000001, 0b00000000));
    assert_eq!(true, half_carried_sub8(0b00000000, 0b00000001));
    assert_eq!(true, half_carried_sub8(0b00000000, 0b00001000));
    assert_eq!(true, half_carried_sub8(0b00000110, 0b00001100));
}

#[test]
fn test_half_carried_commutes_and_sub_antisymmetric() {
    // The additive predicate is commutative; the subtractive one flips
    // whenever the low nibbles differ.
    for &(a, b) in &[(0x0Fu8, 0x01u8), (0x3A, 0x2B), (0x08, 0x08), (0xF7, 0x19)] {
        assert_eq!(half_carried_add8(a, b), half_carried_add8(b, a));
        if a & 0xF != b & 0xF {
            assert_eq!(half_carried_sub8(a, b), !half_carried_sub8(b, a));
        }
    }
    assert_eq!(half_carried_sub8(0x08, 0x08), false);
}

#[test]
fn test_half_carried_add16_exact() {
    assert_eq!(true, half_carried_add16(0x0FFF, 0x0001));
    assert_eq!(false, half_carried_add16(0x0F00, 0x00FF));
    assert_eq!(true, half_carried_add16(0x8800, 0x0801));
}

#[test]
fn test_bit_and_set_bits() {
    assert_eq!(0x80, bit(0xF0, 7));
    assert_eq!(0x00, bit(0x70, 7));
    assert_eq!(0b1010_0101, set_bits(0b1111_0101, 0b1010_0000, 0b1111_0000));
    assert_eq!(0b0000_0001, set_bits(0b0000_0000, 0b1111_1111, 0b0000_0001));
}
