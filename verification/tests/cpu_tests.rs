use jameboy::cpu::{Cpu, Flags, Register, RegisterWide, WriteFlags};
use jameboy::opcode;

#[test]
fn test_read_flags() {
    let mut cpu = Cpu::init();
    assert_eq!(
        Flags { zero: false, subtract: false, half_carry: false, carry: false },
        cpu.read_flags()
    );

    cpu.f = 0b11110000;
    assert_eq!(
        Flags { zero: true, subtract: true, half_carry: true, carry: true },
        cpu.read_flags()
    );

    cpu.f = 0b10000000;
    assert_eq!(
        Flags { zero: true, subtract: false, half_carry: false, carry: false },
        cpu.read_flags()
    );

    cpu.f = 0b01000000;
    assert_eq!(
        Flags { zero: false, subtract: true, half_carry: false, carry: false },
        cpu.read_flags()
    );
    cpu.f = 0b00100000;
    assert_eq!(
        Flags { zero: false, subtract: false, half_carry: true, carry: false },
        cpu.read_flags()
    );

    cpu.f = 0b00010000;
    assert_eq!(
        Flags { zero: false, subtract: false, half_carry: false, carry: true },
        cpu.read_flags()
    );
}

#[test]
fn test_write_flags() {
    let mut cpu = Cpu::init();
    assert_eq!(0b00000000, cpu.f);

    cpu.write_flags(WriteFlags { zero: Some(true), ..Default::default() });
    assert_eq!(0b10000000, cpu.f);

    cpu.write_flags(WriteFlags { subtract: Some(true), ..Default::default() });
    assert_eq!(0b11000000, cpu.f);

    cpu.write_flags(WriteFlags { half_carry: Some(true), ..Default::default() });
    assert_eq!(0b11100000, cpu.f);

    cpu.write_flags(WriteFlags { carry: Some(true), ..Default::default() });
    assert_eq!(0b11110000, cpu.f);

    cpu.write_flags(WriteFlags { ..Default::default() });
    assert_eq!(0b11110000, cpu.f);

    cpu.write_flags(WriteFlags {
        zero: Some(false),
        subtract: Some(false),
        half_carry: Some(false),
        carry: Some(false),
    });
    assert_eq!(0b00000000, cpu.f);
}

#[test]
fn test_register_pair_roundtrip() {
    // Writing 0xABCD to a pairing leaves 0xAB in the msb register and 0xCD
    // in the lsb register, and the paired read reassembles it.
    let mut cpu = Cpu::init();
    cpu.write_register_wide(RegisterWide::BC, 0xABCD);
    assert_eq!(0xAB, cpu.read_register(Register::B));
    assert_eq!(0xCD, cpu.read_register(Register::C));
    assert_eq!(0xABCD, cpu.read_register_wide(RegisterWide::BC));

    cpu.write_register_wide(RegisterWide::DE, 0x1234);
    assert_eq!(0x12, cpu.read_register(Register::D));
    assert_eq!(0x34, cpu.read_register(Register::E));
    assert_eq!(0x1234, cpu.read_register_wide(RegisterWide::DE));

    cpu.write_register_wide(RegisterWide::HL, 0xFEDC);
    assert_eq!(0xFE, cpu.read_register(Register::H));
    assert_eq!(0xDC, cpu.read_register(Register::L));
    assert_eq!(0xFEDC, cpu.read_register_wide(RegisterWide::HL));
}

#[test]
fn test_af_low_nibble_masked() {
    // F's low nibble is unwritable: AF reads back with it zeroed.
    let mut cpu = Cpu::init();
    cpu.write_register_wide(RegisterWide::AF, 0xABCD);
    assert_eq!(0xAB, cpu.read_register(Register::A));
    assert_eq!(0xC0, cpu.f);
    assert_eq!(0xABC0, cpu.read_register_wide(RegisterWide::AF));
}

#[test]
fn test_ld_r8_r8_leaves_others_unchanged() {
    let mut cpu = Cpu::init();
    cpu.a = 0x11;
    cpu.b = 0x22;
    cpu.c = 0x33;
    cpu.d = 0x44;
    cpu.e = 0x55;
    cpu.h = 0x66;
    cpu.l = 0x77;
    cpu.f = 0xF0;
    opcode::ld_r8_r8(&mut cpu, Register::B, Register::C);
    assert_eq!(0x33, cpu.b);
    assert_eq!(0x11, cpu.a);
    assert_eq!(0x33, cpu.c);
    assert_eq!(0x44, cpu.d);
    assert_eq!(0x55, cpu.e);
    assert_eq!(0x66, cpu.h);
    assert_eq!(0x77, cpu.l);
    assert_eq!(0xF0, cpu.f);
}

#[test]
fn test_flags_low_nibble_stays_zero() {
    // After arithmetic the low nibble of F is still zero.
    let mut cpu = Cpu::init();
    cpu.a = 0x3C;
    cpu.b = 0xC4;
    opcode::add_r8(&mut cpu, Register::B);
    assert_eq!(0, cpu.f & 0x0F);
    opcode::sub_r8(&mut cpu, Register::B);
    assert_eq!(0, cpu.f & 0x0F);
    opcode::adc_r8(&mut cpu, Register::B);
    assert_eq!(0, cpu.f & 0x0F);
}

#[test]
fn test_alu_flag_semantics() {
    // ADD overflow: 0xFF + 0x01 wraps to zero with carry and half-carry.
    let mut cpu = Cpu::init();
    cpu.a = 0xFF;
    cpu.b = 0x01;
    opcode::add_r8(&mut cpu, Register::B);
    assert_eq!(0x00, cpu.a);
    let f = cpu.read_flags();
    assert!(f.zero && !f.subtract && f.half_carry && f.carry);

    // ADC includes the carry from the previous addition: 0xFF + 0x01 + 1.
    cpu.a = 0xFF;
    opcode::adc_r8(&mut cpu, Register::B);
    assert_eq!(0x01, cpu.a);
    let f = cpu.read_flags();
    assert!(!f.zero && !f.subtract && f.half_carry && f.carry);

    // SBC below zero wraps and sets carry.
    cpu.a = 0x00;
    cpu.b = 0x00;
    opcode::sbc_r8(&mut cpu, Register::B);
    assert_eq!(0xFF, cpu.a);
    let f = cpu.read_flags();
    assert!(!f.zero && f.subtract && f.half_carry && f.carry);

    // AND always sets H and clears C.
    cpu.a = 0xF0;
    cpu.b = 0x0F;
    opcode::and_r8(&mut cpu, Register::B);
    assert_eq!(0x00, cpu.a);
    let f = cpu.read_flags();
    assert!(f.zero && !f.subtract && f.half_carry && !f.carry);

    // CP leaves A alone and sets flags like SUB.
    cpu.a = 0x42;
    cpu.b = 0x42;
    opcode::cp_r8(&mut cpu, Register::B);
    assert_eq!(0x42, cpu.a);
    assert!(cpu.read_flags().zero);
}
