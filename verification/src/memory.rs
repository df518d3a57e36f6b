//! The 64 KiB address space: a flat byte array with the boot-ROM overlay on
//! [0x0000, 0x0100) and the OAM DMA engine. While DMA is active, reads
//! outside [0xFF80, 0xFFFE] observe the last transferred byte and writes
//! outside that window are dropped. The overlay disappears monotonically:
//! the first non-zero store to the disable register at 0xFF50 sets a latch
//! that nothing clears for the rest of the session.

use vstd::prelude::*;

verus! {

/// A 16-bit bus address.
#[derive(Clone, Copy, PartialEq, Eq, Structural, Debug)]
pub struct Address(pub u16);

/// The DMA engine: inactive, or copying byte `cycles` of 160 from the page
/// starting at `src_addr` into OAM, remembering the last byte it moved.
#[derive(Clone, Copy, PartialEq, Eq, Structural, Debug)]
pub enum DmaState {
    Inactive,
    Active { src_addr: u16, cycles: u8, last_transferred_byte: u8 },
}

/// The mathematical model of the bus: the boot ROM and RAM contents as byte
/// sequences, the DMA engine state, and the one-way boot-disable latch.
#[verifier::ext_equal]
pub ghost struct MemModel {
    pub boot: Seq<u8>,
    pub ram: Seq<u8>,
    pub dma: DmaState,
    pub boot_disabled: bool,
}

/// The bus: boot ROM overlay, DMA engine, the flat 64 KiB RAM, and the
/// latch that the first non-zero store to 0xFF50 sets for good.
pub struct Memory {
    bootstrap_rom: Vec<u8>,
    dma_state: DmaState,
    ram: Vec<u8>,
    boot_rom_disabled: bool,
}

impl View for Memory {
    type V = MemModel;

    closed spec fn view(&self) -> MemModel {
        MemModel {
            boot: self.bootstrap_rom@,
            ram: self.ram@,
            dma: self.dma_state,
            boot_disabled: self.boot_rom_disabled,
        }
    }
}

/// Sizes are fixed and an active DMA transfer is within its 160-byte run,
/// reading a page whose end stays on the bus.
pub open spec fn mem_wf(m: MemModel) -> bool {
    &&& m.boot.len() == 0x100
    &&& m.ram.len() == 0x10000
    &&& match m.dma {
        DmaState::Inactive => true,
        DmaState::Active { src_addr, cycles, .. } => src_addr % 256 == 0 && src_addr <= 0xFF00
            && cycles < 160,
    }
}

/// Whether the DMA engine is mid-transfer.
pub open spec fn mem_dma_active(m: MemModel) -> bool {
    m.dma is Active
}

/// The byte the DMA engine moved most recently (zero right after a trigger).
pub open spec fn mem_dma_last(m: MemModel) -> u8 {
    match m.dma {
        DmaState::Active { last_transferred_byte, .. } => last_transferred_byte,
        DmaState::Inactive => 0,
    }
}

/// Addresses that stay readable and writable during DMA: high RAM.
pub open spec fn dma_window(a: u16) -> bool {
    0xFF80 <= a <= 0xFFFE
}

/// What a bus read returns: the DMA conflict mask takes precedence, then the
/// boot-ROM overlay while the disable latch has never been set, then RAM.
pub open spec fn mem_read(m: MemModel, a: u16) -> u8 {
    if mem_dma_active(m) && !dma_window(a) {
        mem_dma_last(m)
    } else if !m.boot_disabled && a < 0x100 {
        m.boot[a as int]
    } else {
        m.ram[a as int]
    }
}

/// The bus after a write: dropped while DMA is active and the address is
/// outside high RAM; otherwise stored. A store to 0xFF46 additionally starts
/// a DMA transfer from the page `v * 0x100`, and a non-zero store to 0xFF50
/// latches the boot overlay off permanently.
pub open spec fn mem_write(m: MemModel, a: u16, v: u8) -> MemModel {
    if mem_dma_active(m) && !dma_window(a) {
        m
    } else {
        let stored = MemModel {
            ram: m.ram.update(a as int, v),
            boot_disabled: m.boot_disabled || (a == 0xFF50 && v != 0),
            ..m
        };
        if a == 0xFF46 {
            MemModel {
                dma: DmaState::Active {
                    src_addr: (v as u16 * 256) as u16,
                    cycles: 0,
                    last_transferred_byte: 0,
                },
                ..stored
            }
        } else {
            stored
        }
    }
}

/// The bus after one machine cycle: if DMA is active, byte `cycles` of the
/// source page moves into OAM and becomes the last transferred byte; after
/// byte 159 the engine goes inactive.
pub open spec fn mem_step(m: MemModel) -> MemModel {
    match m.dma {
        DmaState::Inactive => m,
        DmaState::Active { src_addr, cycles, .. } => {
            let byte = m.ram[src_addr + cycles];
            MemModel {
                ram: m.ram.update(0xFE00 + cycles as int, byte),
                dma: if cycles <= 158 {
                    DmaState::Active {
                        src_addr,
                        cycles: (cycles + 1) as u8,
                        last_transferred_byte: byte,
                    }
                } else {
                    DmaState::Inactive
                },
                ..m
            }
        },
    }
}

impl Memory {
    /// A powered-on bus: all of RAM and the boot-ROM slot cleared, DMA idle.
    pub fn init() -> (r: Memory)
        ensures
            mem_wf(r@),
            r@.boot =~= Seq::new(0x100, |i: int| 0u8),
            r@.ram =~= Seq::new(0x10000, |i: int| 0u8),
            r@.dma == DmaState::Inactive,
            !r@.boot_disabled,
    {
        let mut boot: Vec<u8> = Vec::new();
        let mut i: usize = 0;
        while i < 0x100
            invariant
                i <= 0x100,
                boot@.len() == i,
                forall|j: int| 0 <= j < i ==> boot@[j] == 0u8,
            decreases 0x100 - i,
        {
            boot.push(0);
            i += 1;
        }
        let mut ram: Vec<u8> = Vec::new();
        let mut i: usize = 0;
        while i < 0x10000
            invariant
                i <= 0x10000,
                ram@.len() == i,
                forall|j: int| 0 <= j < i ==> ram@[j] == 0u8,
            decreases 0x10000 - i,
        {
            ram.push(0);
            i += 1;
        }
        Memory { bootstrap_rom: boot, dma_state: DmaState::Inactive, ram, boot_rom_disabled: false }
    }

    /// Copies a boot image into the overlay slot, leaving the rest of the
    /// slot as it was.
    pub fn load_bootstrap_rom(&mut self, rom: &Vec<u8>)
        requires
            mem_wf(old(self)@),
            rom@.len() <= 0x100,
        ensures
            mem_wf(final(self)@),
            final(self)@.ram == old(self)@.ram,
            final(self)@.dma == old(self)@.dma,
            final(self)@.boot_disabled == old(self)@.boot_disabled,
            final(self)@.boot.len() == 0x100,
            forall|i: int|
                0 <= i < rom@.len() ==> final(self)@.boot[i] == rom@[i],
            forall|i: int|
                rom@.len() <= i < 0x100 ==> final(self)@.boot[i] == old(self)@.boot[i],
    {
        let mut i: usize = 0;
        while i < rom.len()
            invariant
                mem_wf(self@),
                i <= rom@.len(),
                rom@.len() <= 0x100,
                self@.ram == old(self)@.ram,
                self@.dma == old(self)@.dma,
                self@.boot_disabled == old(self)@.boot_disabled,
                self@.boot.len() == 0x100,
                forall|j: int| 0 <= j < i ==> self@.boot[j] == rom@[j],
                forall|j: int| i <= j < 0x100 ==> self@.boot[j] == old(self)@.boot[j],
            decreases rom@.len() - i,
        {
            let v = rom[i];
            self.bootstrap_rom.set(i, v);
            i += 1;
        }
    }

    /// Reads one byte as the CPU and PPU observe the bus, honouring the DMA
    /// conflict mask and the boot-ROM overlay.
    pub fn read(&self, address: Address) -> (r: u8)
        requires
            mem_wf(self@),
        ensures
            r == mem_read(self@, address.0),
    {
        if let DmaState::Active { last_transferred_byte, .. } = self.dma_state {
            if address.0 < 0xFF80 || address.0 > 0xFFFE {
                return last_transferred_byte;
            }
        }
        if !self.boot_rom_disabled && address.0 < 0x100 {
            self.bootstrap_rom[address.0 as usize]
        } else {
            self.ram[address.0 as usize]
        }
    }

    /// Borrows `count` raw RAM bytes starting at `address`. This bypasses the
    /// DMA mask and the boot overlay by contract; its callers (OAM scan and
    /// the tile-buffer view) know the access pattern.
    pub fn read_range(&self, address: Address, count: u16) -> (r: Vec<u8>)
        requires
            mem_wf(self@),
            address.0 + count <= 0x10000,
        ensures
            r@ == self@.ram.subrange(address.0 as int, address.0 + count),
    {
        let mut out: Vec<u8> = Vec::new();
        let start = address.0 as usize;
        let mut i: usize = 0;
        while i < count as usize
            invariant
                mem_wf(self@),
                start == address.0,
                i <= count,
                start + count <= 0x10000,
                out@.len() == i,
                forall|j: int| 0 <= j < i ==> out@[j] == self@.ram[start + j],
            decreases count - i,
        {
            out.push(self.ram[start + i]);
            i += 1;
        }
        proof {
            assert(out@ =~= self@.ram.subrange(address.0 as int, address.0 + count));
        }
        out
    }

    /// One DMA machine cycle: moves byte `cycles` of the source page into
    /// OAM, or does nothing when the engine is idle.
    pub fn step(&mut self)
        requires
            mem_wf(old(self)@),
        ensures
            mem_wf(final(self)@),
            final(self)@ == mem_step(old(self)@),
    {
        if let DmaState::Active { src_addr, cycles, .. } = self.dma_state {
            let dst_address: usize = 0xFE00 + cycles as usize;
            let byte_to_transfer = self.ram[src_addr as usize + cycles as usize];
            self.ram.set(dst_address, byte_to_transfer);
            self.dma_state = if cycles <= 158 {
                DmaState::Active {
                    src_addr,
                    cycles: cycles + 1,
                    last_transferred_byte: byte_to_transfer,
                }
            } else {
                DmaState::Inactive
            };
        }
    }

    /// Writes one byte as the CPU observes the bus: dropped outside high RAM
    /// while DMA is active; a store to 0xFF46 triggers a DMA transfer, and a
    /// non-zero store to 0xFF50 latches the boot overlay off.
    pub fn write(&mut self, address: Address, value: u8)
        requires
            mem_wf(old(self)@),
        ensures
            mem_wf(final(self)@),
            final(self)@ == mem_write(old(self)@, address.0, value),
    {
        if let DmaState::Active { .. } = self.dma_state {
            if address.0 < 0xFF80 || address.0 > 0xFFFE {
                return;
            }
        }
        self.ram.set(address.0 as usize, value);
        if address.0 == 0xFF50 && value != 0 {
            self.boot_rom_disabled = true;
        }
        if address.0 == 0xFF46 {
            self.dma_state = DmaState::Active {
                src_addr: value as u16 * 256,
                cycles: 0,
                last_transferred_byte: 0,
            };
        }
    }
}

/// The bus after `n` machine cycles.
pub open spec fn mem_step_n(m: MemModel, n: nat) -> MemModel
    decreases n,
{
    if n == 0 {
        m
    } else {
        mem_step(mem_step_n(m, (n - 1) as nat))
    }
}

/// The boot overlay disappears monotonically: once the disable latch is
/// set, no later write and no DMA cycle brings the overlay back, and every
/// read at or above 0x100, as well as every read below 0x100 after the
/// latch, goes to RAM or the DMA mask, never to the boot image.
pub proof fn lemma_boot_disable_monotone(m: MemModel, a: u16, v: u8)
    ensures
        m.boot_disabled ==> mem_write(m, a, v).boot_disabled,
        m.boot_disabled ==> mem_step(m).boot_disabled,
        (m.boot_disabled && !mem_dma_active(m)) ==> mem_read(m, a) == m.ram[a as int],
{
}

/// During DMA the conflict mask is total outside high RAM: every read away
/// from [0xFF80, 0xFFFE] returns the last transferred byte.
pub proof fn lemma_dma_read_mask(m: MemModel, a: u16)
    requires
        mem_dma_active(m),
        !dma_window(a),
    ensures
        mem_read(m, a) == mem_dma_last(m),
{
}

/// Helper facts about one DMA step from a mid-transfer state.
proof fn lemma_dma_one_step(m: MemModel, src: u16, k: u8)
    requires
        mem_wf(m),
        m.dma == (DmaState::Active { src_addr: src, cycles: k, last_transferred_byte: mem_dma_last(m) }),
    ensures
        mem_wf(mem_step(m)),
        mem_step(m).boot == m.boot,
        mem_step(m).ram =~= m.ram.update(0xFE00 + k, m.ram[src + k]),
        k <= 158 ==> mem_step(m).dma == (DmaState::Active {
            src_addr: src,
            cycles: (k + 1) as u8,
            last_transferred_byte: m.ram[src + k],
        }),
        k == 159 ==> mem_step(m).dma == DmaState::Inactive,
{
}

/// Writing a byte `v` to the DMA register and then running `n <= 160` machine
/// cycles copies the first `n` bytes of the page `v * 0x100` into OAM, one
/// per cycle, leaving every other RAM cell alone; after the 160th cycle the
/// engine is idle. This holds for every trigger value, the OAM page itself
/// included: a transfer from 0xFE00 copies each cell onto itself one step
/// before anything later could disturb it.
pub proof fn lemma_dma_transfer(m0: MemModel, v: u8, n: nat)
    requires
        mem_wf(m0),
        !mem_dma_active(m0),
        n <= 160,
    ensures
        ({
            let m1 = mem_write(m0, 0xFF46, v);
            let mn = mem_step_n(m1, n);
            &&& mem_wf(mn)
            &&& forall|i: int|
                0 <= i < n ==> #[trigger] mn.ram[0xFE00 + i] == m1.ram[v * 0x100 + i]
            &&& forall|i: int|
                (0 <= i < 0x10000 && !(0xFE00 <= i < 0xFE00 + n)) ==> #[trigger] mn.ram[i]
                    == m1.ram[i]
            &&& n < 160 ==> mn.dma == (DmaState::Active {
                src_addr: (v * 256) as u16,
                cycles: n as u8,
                last_transferred_byte: if n == 0 { 0u8 } else { m1.ram[v * 0x100 + n - 1] },
            })
            &&& n == 160 ==> mn.dma == DmaState::Inactive
        }),
    decreases n,
{
    let m1 = mem_write(m0, 0xFF46, v);
    let src = (v as u16 * 256) as u16;
    if n == 0 {
    } else {
        lemma_dma_transfer(m0, v, (n - 1) as nat);
        let prev = mem_step_n(m1, (n - 1) as nat);
        let k = (n - 1) as u8;
        assert(prev.dma == (DmaState::Active {
            src_addr: src,
            cycles: k,
            last_transferred_byte: mem_dma_last(prev),
        }));
        lemma_dma_one_step(prev, src, k);
        assert(mem_step_n(m1, n) == mem_step(prev));
        // The source cell read at cycle k is still as it was after the
        // trigger write: the cells written so far lie strictly below
        // 0xFE00 + k, and the source page starts at 0xFE00 at the highest.
        assert(src + k < 0x10000);
        assert(!(0xFE00 <= src + k < 0xFE00 + (n - 1)));
        assert(prev.ram[src + k] == m1.ram[src + k]);
    }
}

} // verus!
