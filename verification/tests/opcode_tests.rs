use jameboy::cpu::{Cpu, Register};
use jameboy::opcode::{decode, decode_prefixed, inc_r8, OpKind};

#[test]
fn test_undefined_opcodes_decode_none() {
    let undefined = [0xD3u8, 0xDB, 0xDD, 0xE3, 0xE4, 0xEB, 0xEC, 0xED, 0xF4, 0xFC, 0xFD];
    for byte in 0..=255u8 {
        let decoded = decode(byte);
        if undefined.contains(&byte) {
            assert!(decoded.is_none());
        } else {
            assert!(decoded.is_some());
        }
    }
}

#[test]
fn test_decode_prefixed_total() {
    for byte in 0..=255u8 {
        assert!(decode_prefixed(byte).is_some());
    }
}

#[test]
fn test_decode_sizes() {
    assert_eq!(1, decode(0x00).unwrap().size_bytes);
    assert_eq!(3, decode(0x01).unwrap().size_bytes);
    assert_eq!(2, decode(0x06).unwrap().size_bytes);
    assert_eq!(3, decode(0xC3).unwrap().size_bytes);
    assert_eq!(2, decode(0xFE).unwrap().size_bytes);
    assert_eq!(1, decode(0xCB).unwrap().size_bytes);
    assert_eq!(decode(0xCB).unwrap().kind, Some(OpKind::Prefix));
}

#[test]
fn test_unimplemented_slots_have_no_executor() {
    // Decoded instructions whose executor the table leaves out: RRCA, DAA,
    // SCF, CCF, HALT and the prefixed RLC row.
    for byte in [0x0Fu8, 0x27, 0x37, 0x3F, 0x76] {
        assert!(decode(byte).unwrap().kind.is_none());
    }
    for byte in [0x00u8, 0x07] {
        assert!(decode_prefixed(byte).unwrap().kind.is_none());
    }
    assert!(decode_prefixed(0x7C).unwrap().kind.is_some());
}

#[test]
fn test_inc_a_half_carry_corner() {
    // INC A at 0x0F: half-carry sets, carry is untouched either way.
    let mut cpu = Cpu::init();
    cpu.a = 0x0F;
    inc_r8(&mut cpu, Register::A);
    assert_eq!(0x10, cpu.a);
    let f = cpu.read_flags();
    assert!(!f.zero && !f.subtract && f.half_carry && !f.carry);

    let mut cpu = Cpu::init();
    cpu.f = 0b0001_0000;
    cpu.a = 0x0F;
    inc_r8(&mut cpu, Register::A);
    assert_eq!(0x10, cpu.a);
    let f = cpu.read_flags();
    assert!(!f.zero && !f.subtract && f.half_carry && f.carry);
}
