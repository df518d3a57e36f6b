use jameboy::disassembly::disassemble;
use jameboy::machine::{map_rom_into_memory, Machine};
use jameboy::memory::Address;
use jameboy::opcode::{AluOp, OpKind};

#[test]
fn test_machine_composite_tick() {
    // One composite tick runs the CPU once: INC A at the reset vector.
    let mut machine = Machine::init();
    machine.memory.write(Address(0xFF50), 1);
    let rom = vec![0x3C, 0x3C];
    map_rom_into_memory(&rom, &mut machine.memory);
    machine.step();
    assert_eq!(1, machine.cpu.a);
    assert_eq!(1, machine.cpu.pc);
    machine.step();
    assert_eq!(2, machine.cpu.a);
}

#[test]
fn test_map_rom_into_memory() {
    let mut machine = Machine::init();
    machine.memory.write(Address(0xFF50), 1);
    let rom = vec![0x11, 0x22, 0x33];
    map_rom_into_memory(&rom, &mut machine.memory);
    assert_eq!(0x11, machine.memory.read(Address(0)));
    assert_eq!(0x22, machine.memory.read(Address(1)));
    assert_eq!(0x33, machine.memory.read(Address(2)));
    assert_eq!(0x00, machine.memory.read(Address(3)));
}

#[test]
fn test_disassemble_walk() {
    // NOP; CB prefix + BIT 7, H; LD HL, n16; then an unassigned byte.
    let program = vec![0x00, 0xCB, 0x7C, 0x21, 0x34, 0x12, 0xD3];
    let listing = disassemble(&program);
    assert_eq!(5, listing.len());
    assert_eq!(Address(0), listing[0].address);
    assert_eq!(Some(OpKind::Nop), listing[0].opcode.unwrap().kind);
    assert_eq!(Address(1), listing[1].address);
    assert_eq!(Some(OpKind::Prefix), listing[1].opcode.unwrap().kind);
    // The byte after the prefix decodes through the prefixed table.
    assert_eq!(Address(2), listing[2].address);
    assert!(matches!(listing[2].opcode.unwrap().kind, Some(OpKind::BitR8(7, _))));
    // The three-byte load advances the cursor by three.
    assert_eq!(Address(3), listing[3].address);
    assert_eq!(3, listing[3].opcode.unwrap().size_bytes);
    // The unassigned byte is recorded without an opcode.
    assert_eq!(Address(6), listing[4].address);
    assert!(listing[4].opcode.is_none());
}

#[test]
fn test_cp_immediate_through_step() {
    // CP A, n8 through a full fetch-decode-execute step.
    let mut machine = Machine::init();
    machine.memory.write(Address(0xFF50), 1);
    map_rom_into_memory(&vec![0xFE, 0x2A], &mut machine.memory);
    machine.cpu.a = 0x2A;
    machine.step();
    assert_eq!(2, machine.cpu.pc);
    assert!(machine.cpu.read_flags().zero);
    assert_eq!(0x2A, machine.cpu.a);
    // The decode table records CP A, n8 as an immediate accumulator compare.
    assert_eq!(
        Some(OpKind::AluN8(AluOp::Cp)),
        jameboy::opcode::decode(0xFE).unwrap().kind
    );
}
