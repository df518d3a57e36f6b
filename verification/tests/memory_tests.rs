use jameboy::memory::{Address, Memory};

#[test]
fn test_boot_overlay() {
    let mut memory = Memory::init();
    let boot: Vec<u8> = vec![0x31, 0xFE, 0xFF];
    memory.load_bootstrap_rom(&boot);
    // While 0xFF50 is zero, the low 256 bytes read from the boot image.
    assert_eq!(0x31, memory.read(Address(0x0000)));
    assert_eq!(0xFE, memory.read(Address(0x0001)));
    assert_eq!(0xFF, memory.read(Address(0x0002)));
    // Any non-zero write to 0xFF50 turns the overlay off for good.
    memory.write(Address(0x0000), 0xAA);
    assert_eq!(0x31, memory.read(Address(0x0000)));
    memory.write(Address(0xFF50), 1);
    assert_eq!(0xAA, memory.read(Address(0x0000)));
    // The disable is a one-way latch: writing zero back does not bring the
    // overlay back.
    memory.write(Address(0xFF50), 0);
    assert_eq!(0xAA, memory.read(Address(0x0000)));
    assert_eq!(0x00, memory.read(Address(0xFF50)));
}

#[test]
fn test_dma_from_oam_page_is_self_copy() {
    // A trigger value of 0xFE names the OAM page itself: each cycle copies a
    // cell onto itself, so OAM comes out unchanged.
    let mut memory = Memory::init();
    for i in 0..160u16 {
        memory.write(Address(0xFE00 + i), (i as u8).wrapping_mul(7).wrapping_add(1));
    }
    let before = memory.read_range(Address(0xFE00), 160);
    memory.write(Address(0xFF46), 0xFE);
    for _ in 0..160 {
        memory.step();
    }
    let after = memory.read_range(Address(0xFE00), 160);
    assert_eq!(before, after);
    // The engine is idle again afterwards.
    assert_eq!(after[0], memory.read(Address(0xFE00)));
}

#[test]
fn test_dma_copies_whole_page() {
    // Writing v to 0xFF46 copies ram[v * 0x100 + i] into OAM over the next
    // 160 machine cycles, one byte per cycle.
    let mut memory = Memory::init();
    for i in 0..160u16 {
        memory.write(Address(0xC000 + i), (i as u8).wrapping_mul(3).wrapping_add(7));
    }
    memory.write(Address(0xFF46), 0xC0);
    for _ in 0..160 {
        memory.step();
    }
    let oam = memory.read_range(Address(0xFE00), 160);
    let src = memory.read_range(Address(0xC000), 160);
    assert_eq!(src, oam);
    // The engine is idle again: reads are no longer masked.
    assert_eq!(0x00, memory.read(Address(0x8000)));
}

#[test]
fn test_dma_read_mask_and_write_drop() {
    let mut memory = Memory::init();
    memory.write(Address(0xC000), 0x5A);
    memory.write(Address(0xFF80), 0x77);
    memory.write(Address(0x8000), 0x12);
    memory.write(Address(0xFF46), 0xC0);
    // On the first cycle ram[0xFE00] takes ram[0xC000].
    memory.step();
    assert_eq!(0x5A, memory.read_range(Address(0xFE00), 1)[0]);
    // While the transfer runs, every read outside high RAM returns the last
    // transferred byte, and writes outside high RAM are dropped.
    assert_eq!(0x5A, memory.read(Address(0x8000)));
    assert_eq!(0x5A, memory.read(Address(0x0000)));
    memory.write(Address(0x8000), 0xFF);
    assert_eq!(0x12, memory.read_range(Address(0x8000), 1)[0]);
    // High RAM stays readable and writable.
    assert_eq!(0x77, memory.read(Address(0xFF80)));
    memory.write(Address(0xFF81), 0x66);
    assert_eq!(0x66, memory.read(Address(0xFF81)));
}
