//! The owning aggregate: one CPU, one bus and one PPU advanced in lockstep.
//! A composite tick runs one bus DMA cycle, one CPU step, then four PPU dots
//! (the PPU runs at four times the CPU rate), each subsystem observing the
//! writes of the one before it.

use vstd::prelude::*;

use crate::cpu::{flags_wf, spec_cpu_step, Cpu};
use crate::memory::{mem_dma_active, mem_step, mem_wf, Address, Memory};
use crate::ppu::{ppu_four_steps_rel, ppu_step_rel, Ppu};

verus! {

/// The machine: all mutable state of the core, stepped cooperatively.
pub struct Machine {
    pub cpu: Cpu,
    pub memory: Memory,
    pub ppu: Ppu,
}

impl Machine {
    /// Every subsystem keeps its standing shape.
    pub open spec fn wf(&self) -> bool {
        &&& flags_wf(self.cpu)
        &&& mem_wf(self.memory@)
        &&& self.ppu.wf()
    }

    /// A powered-on machine: reset CPU, cleared bus, idle PPU.
    pub fn init() -> (r: Machine)
        ensures
            r.wf(),
            r.cpu.pc == 0 && r.cpu.sp == 0 && r.cpu.ime == true && !r.cpu.prefixed,
            !mem_dma_active(r.memory@),
            forall|i: int| 0 <= i < 0x10000 ==> r.memory@.ram[i] == 0u8,
    {
        Machine { cpu: Cpu::init(), memory: Memory::init(), ppu: Ppu::init() }
    }

    /// One composite tick. The DMA engine moves first, then the CPU takes
    /// one `spec_cpu_step` against the bus the DMA left behind, then the PPU
    /// runs four dots over the bus the CPU left behind, each dot observing
    /// the one before it. The CPU half of the tick and the bus it hands the
    /// PPU are pinned exactly; the four dots are chained by `ppu_step_rel`.
    /// The PPU never touches the register file, so F keeps its zero low
    /// nibble across any tick.
    pub fn step(&mut self)
        requires
            old(self).wf(),
        ensures
            final(self).wf(),
            ({
                let after_dma = mem_step(old(self).memory@);
                let stepped = spec_cpu_step(old(self).cpu, after_dma);
                &&& final(self).cpu == stepped.0
                &&& ppu_four_steps_rel(
                    old(self).ppu,
                    stepped.1,
                    final(self).ppu,
                    final(self).memory@,
                )
            }),
    {
        self.memory.step();
        self.cpu.step(&mut self.memory);
        // 4 PPU dots per M-cycle.
        let ghost p0 = self.ppu;
        let ghost n0 = self.memory@;
        self.ppu.step(&mut self.memory);
        let ghost p1 = self.ppu;
        let ghost n1 = self.memory@;
        self.ppu.step(&mut self.memory);
        let ghost p2 = self.ppu;
        let ghost n2 = self.memory@;
        self.ppu.step(&mut self.memory);
        let ghost p3 = self.ppu;
        let ghost n3 = self.memory@;
        self.ppu.step(&mut self.memory);
        proof {
            assert(ppu_step_rel(p0, n0, p1, n1));
            assert(ppu_step_rel(p1, n1, p2, n2));
            assert(ppu_step_rel(p2, n2, p3, n3));
            assert(ppu_step_rel(p3, n3, self.ppu, self.memory@));
            assert(ppu_four_steps_rel(p0, n0, self.ppu, self.memory@));
        }
    }
}

/// Maps a flat ROM image into the address space from offset zero. The image
/// fits the cartridge-ROM region, so no store can reach the DMA trigger.
pub fn map_rom_into_memory(rom: &Vec<u8>, memory: &mut Memory)
    requires
        mem_wf(old(memory)@),
        !mem_dma_active(old(memory)@),
        rom@.len() <= 0x8000,
    ensures
        mem_wf(final(memory)@),
        !mem_dma_active(final(memory)@),
        final(memory)@.boot == old(memory)@.boot,
        final(memory)@.boot_disabled == old(memory)@.boot_disabled,
        forall|i: int| 0 <= i < rom@.len() ==> final(memory)@.ram[i] == rom@[i],
        forall|i: int|
            rom@.len() <= i < 0x10000 ==> final(memory)@.ram[i] == old(memory)@.ram[i],
{
    let mut i: usize = 0;
    while i < rom.len()
        invariant
            mem_wf(memory@),
            !mem_dma_active(memory@),
            rom@.len() <= 0x8000,
            i <= rom@.len(),
            memory@.boot == old(memory)@.boot,
            memory@.boot_disabled == old(memory)@.boot_disabled,
            forall|j: int| 0 <= j < i ==> memory@.ram[j] == rom@[j],
            forall|j: int| i <= j < 0x10000 ==> memory@.ram[j] == old(memory)@.ram[j],
        decreases rom@.len() - i,
    {
        let v = rom[i];
        memory.write(Address(i as u16), v);
        i += 1;
    }
}

} // verus!
