use jameboy::cpu::{Cpu, Register, RegisterWide};
use jameboy::memory::{Address, Memory};
use jameboy::opcode::{rl_r8, srl_r8, swap_r8};

fn machine_with_program(program: &[u8]) -> (Cpu, Memory) {
    let mut memory = Memory::init();
    memory.write(Address(0xFF50), 1);
    for (i, &byte) in program.iter().enumerate() {
        memory.write(Address(i as u16), byte);
    }
    (Cpu::init(), memory)
}

#[test]
fn test_call_and_ret_round_trip() {
    // CALL 0x0010; ... at 0x0010: RET. The return address is the byte after
    // the call.
    let mut program = [0u8; 0x11];
    program[0] = 0xCD;
    program[1] = 0x10;
    program[2] = 0x00;
    program[0x10] = 0xC9;
    let (mut cpu, mut memory) = machine_with_program(&program);
    cpu.write_register_wide(RegisterWide::SP, 0xFFFE);
    cpu.step(&mut memory);
    assert_eq!(0x0010, cpu.pc);
    assert_eq!(0xFFFC, cpu.sp);
    assert_eq!(0x00, memory.read(Address(0xFFFD)));
    assert_eq!(0x03, memory.read(Address(0xFFFC)));
    cpu.step(&mut memory);
    assert_eq!(0x0003, cpu.pc);
    assert_eq!(0xFFFE, cpu.sp);
}

#[test]
fn test_jr_negative_offset() {
    // NOP; NOP; JR -4 jumps back to the start.
    let program = [0x00, 0x00, 0x18, 0xFC];
    let (mut cpu, mut memory) = machine_with_program(&program);
    cpu.step(&mut memory);
    cpu.step(&mut memory);
    cpu.step(&mut memory);
    assert_eq!(0x0000, cpu.pc);
}

#[test]
fn test_rst_vector() {
    let program = [0xEF];  // RST $28
    let (mut cpu, mut memory) = machine_with_program(&program);
    cpu.write_register_wide(RegisterWide::SP, 0xFFFE);
    cpu.step(&mut memory);
    assert_eq!(0x0028, cpu.pc);
    assert_eq!(0xFFFC, cpu.sp);
    assert_eq!(0x01, memory.read(Address(0xFFFC)));
}

#[test]
fn test_ld_hl_post_increment_and_decrement() {
    // LD A, 0x7E; LD HL, 0xC123; LD [HL+], A; LD [HL-], A.
    let program = [0x3E, 0x7E, 0x21, 0x23, 0xC1, 0x22, 0x32];
    let (mut cpu, mut memory) = machine_with_program(&program);
    cpu.step(&mut memory);
    cpu.step(&mut memory);
    cpu.step(&mut memory);
    assert_eq!(0xC124, cpu.read_register_wide(RegisterWide::HL));
    cpu.step(&mut memory);
    assert_eq!(0xC123, cpu.read_register_wide(RegisterWide::HL));
    assert_eq!(0x7E, memory.read(Address(0xC123)));
    assert_eq!(0x7E, memory.read(Address(0xC124)));
}

#[test]
fn test_ldh_write_and_read() {
    // LDH [0x80], A then LDH A, [0x80] round-trips through high RAM.
    let program = [0x3E, 0x5C, 0xE0, 0x80, 0x3E, 0x00, 0xF0, 0x80];
    let (mut cpu, mut memory) = machine_with_program(&program);
    cpu.step(&mut memory);
    cpu.step(&mut memory);
    assert_eq!(0x5C, memory.read(Address(0xFF80)));
    cpu.step(&mut memory);
    cpu.step(&mut memory);
    assert_eq!(0x5C, cpu.a);
}

#[test]
fn test_rl_through_carry() {
    // RL shifts the old carry into bit 0 and the old bit 7 into carry.
    let mut cpu = Cpu::init();
    cpu.f = 0b0001_0000;
    cpu.b = 0b1000_0000;
    rl_r8(&mut cpu, Register::B);
    assert_eq!(0b0000_0001, cpu.b);
    assert!(cpu.read_flags().carry);
    rl_r8(&mut cpu, Register::B);
    assert_eq!(0b0000_0011, cpu.b);
    assert!(!cpu.read_flags().carry);
}

#[test]
fn test_srl_and_swap() {
    let mut cpu = Cpu::init();
    cpu.c = 0b0000_0011;
    srl_r8(&mut cpu, Register::C);
    assert_eq!(0b0000_0001, cpu.c);
    assert!(cpu.read_flags().carry);
    cpu.d = 0xA5;
    swap_r8(&mut cpu, Register::D);
    assert_eq!(0x5A, cpu.d);
    assert!(!cpu.read_flags().carry);
}

#[test]
fn test_bit_sets_zero_from_complement() {
    // BIT 7, H through the prefixed table: Z holds the complement of bit 7.
    let program = [0xCB, 0x7C, 0xCB, 0x7C];
    let (mut cpu, mut memory) = machine_with_program(&program);
    cpu.h = 0x80;
    cpu.step(&mut memory);
    cpu.step(&mut memory);
    assert!(!cpu.read_flags().zero);
    cpu.h = 0x00;
    cpu.step(&mut memory);
    cpu.step(&mut memory);
    assert!(cpu.read_flags().zero);
}
