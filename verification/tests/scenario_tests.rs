use jameboy::cpu::{Cpu, RegisterWide};
use jameboy::memory::{Address, Memory};

fn machine_with_program(program: &[u8]) -> (Cpu, Memory) {
    let mut memory = Memory::init();
    // Disable the boot overlay so the program at 0x0000 is fetched from RAM.
    memory.write(Address(0xFF50), 1);
    for (i, &byte) in program.iter().enumerate() {
        memory.write(Address(i as u16), byte);
    }
    (Cpu::init(), memory)
}

#[test]
fn test_bootstrap_zero_fill() {
    // XOR A, A; LD HL, 0x9FFF; then LD [HL-], A / BIT 7, H / JR NZ, -5
    // until HL drops below video RAM.
    let program = [0xAF, 0x21, 0xFF, 0x9F, 0x32, 0xCB, 0x7C, 0x20, 0xFB];
    let (mut cpu, mut memory) = machine_with_program(&program);
    cpu.write_register_wide(RegisterWide::SP, 0xFFFE);
    for addr in 0x8000u16..0xA000 {
        memory.write(Address(addr), 0xAA);
    }
    let mut steps = 0u32;
    while cpu.pc != 9 && steps < 500_000 {
        cpu.step(&mut memory);
        steps += 1;
    }
    assert_eq!(9, cpu.pc);
    for addr in 0x8000u16..0xA000 {
        assert_eq!(0, memory.read(Address(addr)));
    }
    assert_eq!(0x7F, cpu.h);
    assert!(cpu.read_flags().zero);
}

#[test]
fn test_stack_round_trip() {
    // PUSH BC; LD BC, 0x0000; POP BC.
    let program = [0xC5, 0x01, 0x00, 0x00, 0xC1];
    let (mut cpu, mut memory) = machine_with_program(&program);
    cpu.write_register_wide(RegisterWide::SP, 0xFFFE);
    cpu.write_register_wide(RegisterWide::BC, 0x1234);
    cpu.step(&mut memory);
    cpu.step(&mut memory);
    assert_eq!(0x0000, cpu.read_register_wide(RegisterWide::BC));
    cpu.step(&mut memory);
    assert_eq!(0xFFFE, cpu.read_register_wide(RegisterWide::SP));
    assert_eq!(0x1234, cpu.read_register_wide(RegisterWide::BC));
    assert_eq!(0x12, memory.read(Address(0xFFFD)));
    assert_eq!(0x34, memory.read(Address(0xFFFC)));
}

#[test]
fn test_interrupt_dispatch() {
    let (mut cpu, mut memory) = machine_with_program(&[]);
    memory.write(Address(0xFFFF), 0x01);
    memory.write(Address(0xFF0F), 0x01);
    cpu.write_register_wide(RegisterWide::PC, 0x1000);
    cpu.write_register_wide(RegisterWide::SP, 0xFFFE);
    assert!(cpu.ime);
    cpu.step(&mut memory);
    assert!(!cpu.ime);
    assert_eq!(0x00, memory.read(Address(0xFF0F)));
    assert_eq!(0xFFFC, cpu.read_register_wide(RegisterWide::SP));
    assert_eq!(0x10, memory.read(Address(0xFFFD)));
    assert_eq!(0x00, memory.read(Address(0xFFFC)));
    assert_eq!(0x0040, cpu.read_register_wide(RegisterWide::PC));
}

#[test]
fn test_ei_latency_with_di() {
    // EI; DI: the enable from EI is one instruction late, so IME is still
    // off when DI starts, and DI then keeps it off.
    let program = [0xFB, 0xF3];
    let (mut cpu, mut memory) = machine_with_program(&program);
    cpu.request_ime_disable();
    cpu.step(&mut memory);
    assert!(!cpu.ime);
    cpu.step(&mut memory);
    assert!(!cpu.ime);
}

#[test]
fn test_ei_latency_with_nop() {
    // EI; NOP: IME is on when the instruction after the NOP dispatches.
    let program = [0xFB, 0x00, 0x00];
    let (mut cpu, mut memory) = machine_with_program(&program);
    cpu.request_ime_disable();
    cpu.step(&mut memory);
    assert!(!cpu.ime);
    cpu.step(&mut memory);
    assert!(cpu.ime);
}

#[test]
fn test_dma_masking_scenario() {
    // Write 0xC0 to the DMA register; the first machine cycle copies
    // ram[0xC000] into OAM, reads outside high RAM return the transferred
    // byte, writes outside high RAM drop, and high RAM stays live.
    let mut memory = Memory::init();
    memory.write(Address(0xC000), 0x99);
    memory.write(Address(0xFF80), 0x42);
    memory.write(Address(0xFF46), 0xC0);
    memory.step();
    assert_eq!(0x99, memory.read_range(Address(0xFE00), 1)[0]);
    assert_eq!(0x99, memory.read(Address(0x8000)));
    memory.write(Address(0x8000), 0xFF);
    assert_eq!(0x00, memory.read_range(Address(0x8000), 1)[0]);
    assert_eq!(0x42, memory.read(Address(0xFF80)));
}
