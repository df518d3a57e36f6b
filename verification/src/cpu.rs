//! The CPU: an eight-register file with four 16-bit pairings, packed flags,
//! the interrupt-master-enable latch with its one-instruction EI delay, and
//! the fetch-decode-execute step.

use vstd::prelude::*;

use crate::memory::{mem_read, mem_wf, mem_write, Address, MemModel, Memory};
use crate::opcode;
use crate::opcode::{exec_effect, spec_decode, spec_decode_prefixed, OpKind};
use crate::util;
use crate::util::{spec_lsb, spec_msb, spec_u16, wrap_add16, wrap_sub16};

verus! {

/// One of the seven directly addressable 8-bit registers. F is reachable only
/// through the flag operations and the AF pairing.
#[derive(Clone, Copy, PartialEq, Eq, Structural, Debug)]
pub enum Register {
    A,
    B,
    C,
    D,
    E,
    H,
    L,
}

/// A 16-bit register or msb/lsb register pairing.
#[derive(Clone, Copy, PartialEq, Eq, Structural, Debug)]
pub enum RegisterWide {
    AF,
    BC,
    DE,
    HL,
    PC,
    SP,
}

/// The four flags unpacked from the upper nibble of F.
#[derive(Clone, Copy, PartialEq, Eq, Structural, Debug)]
pub struct Flags {
    pub zero: bool,
    pub subtract: bool,
    pub half_carry: bool,
    pub carry: bool,
}

/// A tri-state flag update: each flag is set, cleared, or left unchanged.
#[derive(Clone, Copy, Default)]
pub struct WriteFlags {
    pub zero: Option<bool>,
    pub subtract: Option<bool>,
    pub half_carry: Option<bool>,
    pub carry: Option<bool>,
}

/// The register file plus interrupt state. The EI instruction requests IME
/// one instruction late; `steps_since_request_ime_enable` counts that delay.
/// `prefixed` records that the previous byte was the CB prefix.
#[derive(Clone, Copy, Debug)]
pub struct Cpu {
    pub a: u8,
    pub b: u8,
    pub c: u8,
    pub d: u8,
    pub e: u8,
    pub f: u8,
    pub h: u8,
    pub l: u8,
    pub pc: u16,
    pub sp: u16,
    pub ime: bool,
    pub steps_since_request_ime_enable: Option<u8>,
    pub prefixed: bool,
}

/// Value of an 8-bit register.
pub open spec fn spec_read_r8(c: Cpu, r: Register) -> u8 {
    match r {
        Register::A => c.a,
        Register::B => c.b,
        Register::C => c.c,
        Register::D => c.d,
        Register::E => c.e,
        Register::H => c.h,
        Register::L => c.l,
    }
}

/// The register file after writing an 8-bit register.
pub open spec fn spec_write_r8(c: Cpu, r: Register, v: u8) -> Cpu {
    match r {
        Register::A => Cpu { a: v, ..c },
        Register::B => Cpu { b: v, ..c },
        Register::C => Cpu { c: v, ..c },
        Register::D => Cpu { d: v, ..c },
        Register::E => Cpu { e: v, ..c },
        Register::H => Cpu { h: v, ..c },
        Register::L => Cpu { l: v, ..c },
    }
}

/// Value of a 16-bit register or pairing.
pub open spec fn spec_read_r16(c: Cpu, r: RegisterWide) -> u16 {
    match r {
        RegisterWide::AF => spec_u16(c.a, c.f),
        RegisterWide::BC => spec_u16(c.b, c.c),
        RegisterWide::DE => spec_u16(c.d, c.e),
        RegisterWide::HL => spec_u16(c.h, c.l),
        RegisterWide::PC => c.pc,
        RegisterWide::SP => c.sp,
    }
}

/// The register file after writing a 16-bit register or pairing. Only the
/// upper nibble of F is writable, so AF masks the low nibble of its lsb.
pub open spec fn spec_write_r16(c: Cpu, r: RegisterWide, v: u16) -> Cpu {
    match r {
        RegisterWide::AF => Cpu { a: spec_msb(v), f: spec_lsb(v) & 0xF0, ..c },
        RegisterWide::BC => Cpu { b: spec_msb(v), c: spec_lsb(v), ..c },
        RegisterWide::DE => Cpu { d: spec_msb(v), e: spec_lsb(v), ..c },
        RegisterWide::HL => Cpu { h: spec_msb(v), l: spec_lsb(v), ..c },
        RegisterWide::PC => Cpu { pc: v, ..c },
        RegisterWide::SP => Cpu { sp: v, ..c },
    }
}

/// The flags unpacked from an F byte: Z in bit 7, N in bit 6, H in bit 5,
/// C in bit 4.
pub open spec fn spec_flags(f: u8) -> Flags {
    Flags {
        zero: f & 0x80 != 0,
        subtract: f & 0x40 != 0,
        half_carry: f & 0x20 != 0,
        carry: f & 0x10 != 0,
    }
}

/// One tri-state flag applied to an F byte at a given mask.
pub open spec fn spec_apply_flag(f: u8, o: Option<bool>, mask: u8) -> u8 {
    match o {
        Some(true) => f | mask,
        Some(false) => f & !mask,
        None => f,
    }
}

/// The F byte after a tri-state flag write.
pub open spec fn spec_write_flags(f: u8, w: WriteFlags) -> u8 {
    spec_apply_flag(
        spec_apply_flag(spec_apply_flag(spec_apply_flag(f, w.zero, 0x80), w.subtract, 0x40), w.half_carry, 0x20),
        w.carry,
        0x10,
    )
}

/// The F byte obtained by packing four concrete flags into the upper nibble.
pub open spec fn spec_pack_flags(z: bool, n: bool, h: bool, cy: bool) -> u8 {
    ((if z { 0x80u8 } else { 0u8 }) | (if n { 0x40u8 } else { 0u8 }) | (if h { 0x20u8 } else { 0u8 })
        | (if cy { 0x10u8 } else { 0u8 })) as u8
}

/// The F register keeps its low nibble at zero.
pub open spec fn flags_wf(c: Cpu) -> bool {
    c.f & 0x0F == 0
}

impl Cpu {
    /// The reset state: cleared registers with interrupts enabled.
    pub fn init() -> (r: Cpu)
        ensures
            r.a == 0 && r.b == 0 && r.c == 0 && r.d == 0 && r.e == 0 && r.f == 0 && r.h == 0
                && r.l == 0,
            r.pc == 0 && r.sp == 0,
            r.ime == true,
            r.steps_since_request_ime_enable is None,
            r.prefixed == false,
            flags_wf(r),
    {
        let r = Cpu {
            a: 0,
            b: 0,
            c: 0,
            d: 0,
            e: 0,
            f: 0,
            h: 0,
            l: 0,
            pc: 0,
            sp: 0,
            ime: true,
            steps_since_request_ime_enable: None,
            prefixed: false,
        };
        proof {
            assert(0u8 & 0x0F == 0) by (bit_vector);
        }
        r
    }

    pub fn read_register(&self, r: Register) -> (v: u8)
        ensures
            v == spec_read_r8(*self, r),
    {
        match r {
            Register::A => self.a,
            Register::B => self.b,
            Register::C => self.c,
            Register::D => self.d,
            Register::E => self.e,
            Register::H => self.h,
            Register::L => self.l,
        }
    }

    pub fn read_register_wide(&self, r: RegisterWide) -> (v: u16)
        ensures
            v == spec_read_r16(*self, r),
    {
        match r {
            RegisterWide::AF => util::u8_to_u16(self.a, self.f),
            RegisterWide::BC => util::u8_to_u16(self.b, self.c),
            RegisterWide::DE => util::u8_to_u16(self.d, self.e),
            RegisterWide::HL => util::u8_to_u16(self.h, self.l),
            RegisterWide::PC => self.pc,
            RegisterWide::SP => self.sp,
        }
    }

    pub fn write_register(&mut self, r: Register, value: u8)
        ensures
            *final(self) == spec_write_r8(*old(self), r, value),
    {
        match r {
            Register::A => self.a = value,
            Register::B => self.b = value,
            Register::C => self.c = value,
            Register::D => self.d = value,
            Register::E => self.e = value,
            Register::H => self.h = value,
            Register::L => self.l = value,
        };
    }

    pub fn write_register_wide(&mut self, r: RegisterWide, value: u16)
        ensures
            *final(self) == spec_write_r16(*old(self), r, value),
            flags_wf(*old(self)) ==> flags_wf(*final(self)),
    {
        proof {
            let l = spec_lsb(value);
            assert((l & 0xF0) & 0x0F == 0) by (bit_vector);
        }
        match r {
            RegisterWide::AF => {
                let (msb, lsb) = util::u16_to_u8(value);
                self.a = msb;
                // Only the upper nibble of F is writable.
                self.f = lsb & 0b1111_0000;
            },
            RegisterWide::BC => {
                let (msb, lsb) = util::u16_to_u8(value);
                self.b = msb;
                self.c = lsb;
            },
            RegisterWide::DE => {
                let (msb, lsb) = util::u16_to_u8(value);
                self.d = msb;
                self.e = lsb;
            },
            RegisterWide::HL => {
                let (msb, lsb) = util::u16_to_u8(value);
                self.h = msb;
                self.l = lsb;
            },
            RegisterWide::PC => self.pc = value,
            RegisterWide::SP => self.sp = value,
        };
    }

    pub fn read_flags(&self) -> (r: Flags)
        ensures
            r == spec_flags(self.f),
    {
        Flags {
            zero: self.f & 0x80 != 0,
            subtract: self.f & 0x40 != 0,
            half_carry: self.f & 0x20 != 0,
            carry: self.f & 0x10 != 0,
        }
    }

    pub fn write_flags(&mut self, f: WriteFlags)
        ensures
            *final(self) == (Cpu { f: spec_write_flags(old(self).f, f), ..*old(self) }),
            flags_wf(*old(self)) ==> flags_wf(*final(self)),
    {
        proof {
            lemma_write_flags_low_nibble(self.f, f);
            assert(!0x80u8 == 0x7Fu8 && !0x40u8 == 0xBFu8 && !0x20u8 == 0xDFu8 && !0x10u8 == 0xEFu8)
                by (bit_vector);
        }
        match f.zero {
            Some(true) => self.f = self.f | 0x80,
            Some(false) => self.f = self.f & 0x7F,
            None => (),
        };
        match f.subtract {
            Some(true) => self.f = self.f | 0x40,
            Some(false) => self.f = self.f & 0xBF,
            None => (),
        };
        match f.half_carry {
            Some(true) => self.f = self.f | 0x20,
            Some(false) => self.f = self.f & 0xDF,
            None => (),
        };
        match f.carry {
            Some(true) => self.f = self.f | 0x10,
            Some(false) => self.f = self.f & 0xEF,
            None => (),
        }
    }

    /// Starts the delayed IME enable that EI requests: IME turns on only
    /// after the next instruction has executed.
    pub fn request_ime_enable(&mut self)
        ensures
            *final(self) == (Cpu { steps_since_request_ime_enable: Some(0u8), ..*old(self) }),
    {
        self.steps_since_request_ime_enable = Some(0);
    }

    /// Clears IME at once and abandons any pending enable request.
    pub fn request_ime_disable(&mut self)
        ensures
            *final(self) == (Cpu { ime: false, steps_since_request_ime_enable: None, ..*old(self) }),
    {
        self.ime = false;
        self.steps_since_request_ime_enable = None;
    }
}

/// One tick of the deferred IME-enable counter, taken after each executed
/// instruction or serviced interrupt: the enable that EI requests lands one
/// instruction late.
pub open spec fn spec_tick_ime(c: Cpu) -> Cpu {
    if c.steps_since_request_ime_enable == Some(1u8) {
        Cpu { ime: true, steps_since_request_ime_enable: None, ..c }
    } else if c.steps_since_request_ime_enable == Some(0u8) {
        Cpu { steps_since_request_ime_enable: Some(1u8), ..c }
    } else {
        c
    }
}

/// Whether any interrupt is both enabled in IE (0xFFFF) and latched in IF
/// (0xFF0F), in any of the five sources.
pub open spec fn spec_pending(m: MemModel) -> bool {
    let masked = mem_read(m, 0xFFFF) & mem_read(m, 0xFF0F);
    masked & 0x01 != 0 || masked & 0x02 != 0 || masked & 0x04 != 0 || masked & 0x08 != 0 || masked
        & 0x10 != 0
}

/// Servicing the highest-priority pending interrupt: its IF bit is cleared,
/// IME drops, the return address is pushed (lsb at SP - 2, msb at SP - 1)
/// and PC jumps to the source's handler vector.
pub open spec fn spec_service_interrupt(c: Cpu, m: MemModel) -> (Cpu, MemModel) {
    let iff = mem_read(m, 0xFF0F);
    let masked = mem_read(m, 0xFFFF) & iff;
    let clear_and_handler: (u8, u16) = if masked & 0x01 != 0 {
        (0xFE, 0x40)
    } else if masked & 0x02 != 0 {
        (0xFD, 0x48)
    } else if masked & 0x04 != 0 {
        (0xFB, 0x50)
    } else if masked & 0x08 != 0 {
        (0xF7, 0x58)
    } else {
        (0xEF, 0x60)
    };
    let m1 = mem_write(m, 0xFF0F, iff & clear_and_handler.0);
    let nsp = wrap_sub16(c.sp, 2);
    let m2 = mem_write(m1, nsp, spec_lsb(c.pc));
    let m3 = mem_write(m2, wrap_add16(nsp, 1), spec_msb(c.pc));
    (Cpu { ime: false, sp: nsp, pc: clear_and_handler.1, ..c }, m3)
}

/// One fetch-decode-execute step. With IME on and an interrupt pending, the
/// step services it and nothing else. Otherwise the byte at PC is decoded
/// through the base or prefixed table; an unassigned opcode stalls the CPU
/// without any state change; a decoded one advances PC by its size, sets the
/// prefixed flag exactly when it is the CB prefix, runs its executor, and
/// finally ticks the deferred IME enable.
pub open spec fn spec_cpu_step(c: Cpu, m: MemModel) -> (Cpu, MemModel) {
    if c.ime && spec_pending(m) {
        let serviced = spec_service_interrupt(c, m);
        (spec_tick_ime(serviced.0), serviced.1)
    } else {
        let byte = mem_read(m, c.pc);
        let dec = if c.prefixed {
            spec_decode_prefixed(byte)
        } else {
            spec_decode(byte)
        };
        match dec {
            None => (c, m),
            Some(op) => {
                let c1 = Cpu {
                    prefixed: op.kind == Some(OpKind::Prefix),
                    pc: wrap_add16(c.pc, op.size_bytes as u16),
                    ..c
                };
                match op.kind {
                    None => (spec_tick_ime(c1), m),
                    Some(k) => {
                        let done = exec_effect(k, c1, m);
                        (spec_tick_ime(done.0), done.1)
                    },
                }
            },
        }
    }
}

impl Cpu {
    /// Advances the deferred IME-enable counter one tick.
    fn check_interrupts_enabled(&mut self)
        ensures
            *final(self) == spec_tick_ime(*old(self)),
    {
        match self.steps_since_request_ime_enable {
            Some(1u8) => {
                self.ime = true;
                self.steps_since_request_ime_enable = None;
            },
            Some(0u8) => {
                self.steps_since_request_ime_enable = Some(1);
            },
            _ => {},
        }
    }

    /// Services the highest-priority pending interrupt if IME allows it,
    /// returning whether one was dispatched.
    fn handled_interrupts(&mut self, memory: &mut Memory) -> (r: bool)
        requires
            mem_wf(old(memory)@),
        ensures
            mem_wf(final(memory)@),
            r == (old(self).ime && spec_pending(old(memory)@)),
            r ==> (*final(self), final(memory)@) == spec_service_interrupt(
                *old(self),
                old(memory)@,
            ),
            !r ==> *final(self) == *old(self) && final(memory)@ == old(memory)@,
            flags_wf(*old(self)) ==> flags_wf(*final(self)),
    {
        if !self.ime {
            return false;
        }
        let ie_register = memory.read(Address(0xFFFF));
        let if_register = memory.read(Address(0xFF0F));
        let masked = ie_register & if_register;
        let (clear_mask, interrupt_handler_address): (u8, u16) = if masked & 0x01 != 0 {
            (0xFE, 0x40)
        } else if masked & 0x02 != 0 {
            (0xFD, 0x48)
        } else if masked & 0x04 != 0 {
            (0xFB, 0x50)
        } else if masked & 0x08 != 0 {
            (0xF7, 0x58)
        } else if masked & 0x10 != 0 {
            (0xEF, 0x60)
        } else {
            return false;
        };
        // The serviced bit in IF resets and IME clears before the jump.
        self.ime = false;
        memory.write(Address(0xFF0F), if_register & clear_mask);
        let pc = self.read_register_wide(RegisterWide::PC);
        let sp = self.read_register_wide(RegisterWide::SP);
        let new_sp = util::sub16(sp, 2);
        let (msb, lsb) = util::u16_to_u8(pc);
        memory.write(Address(new_sp), lsb);
        memory.write(Address(util::add16(new_sp, 1)), msb);
        self.write_register_wide(RegisterWide::SP, new_sp);
        self.write_register_wide(RegisterWide::PC, interrupt_handler_address);
        true
    }

    /// One fetch-decode-execute step against the bus, as `spec_cpu_step`
    /// describes it. After any step the low nibble of F is still zero.
    pub fn step(&mut self, memory: &mut Memory)
        requires
            mem_wf(old(memory)@),
        ensures
            mem_wf(final(memory)@),
            (*final(self), final(memory)@) == spec_cpu_step(*old(self), old(memory)@),
            flags_wf(*old(self)) ==> flags_wf(*final(self)),
    {
        if self.handled_interrupts(memory) {
            self.check_interrupts_enabled();
            return ;
        }
        let pc = self.read_register_wide(RegisterWide::PC);
        let byte = memory.read(Address(pc));
        let decoded = if self.prefixed {
            self.prefixed = false;
            opcode::decode_prefixed(byte)
        } else {
            opcode::decode(byte)
        };
        let op = match decoded {
            Some(op) => op,
            None => {
                return ;
            },
        };
        if let Some(OpKind::Prefix) = op.kind {
            self.prefixed = true;
        }
        self.write_register_wide(RegisterWide::PC, util::add16(pc, op.size_bytes as u16));
        op.execute(self, memory);
        self.check_interrupts_enabled();
    }
}

/// EI opens no interrupt window of its own: a step that executes EI with
/// IME off ends with IME still off and the deferred enable one tick from
/// firing.
pub proof fn lemma_ei_defers_enable(c: Cpu, m: MemModel)
    requires
        !c.ime,
        !c.prefixed,
        ({
            let dec = spec_decode(mem_read(m, c.pc));
            dec matches Some(op) && op.kind == Some(OpKind::Ei)
        }),
    ensures
        !spec_cpu_step(c, m).0.ime,
        spec_cpu_step(c, m).0.steps_since_request_ime_enable == Some(1u8),
{
}

/// The enable EI requested lands exactly one instruction late: with the
/// deferred counter one tick from firing, any step that decodes an
/// instruction other than DI or a second EI ends with IME on. The carve-outs
/// are forced: DI and a second EI overwrite the pending enable, and a step
/// that stalls on an unassigned opcode does not advance the counter.
#[verifier::rlimit(100)]
pub proof fn lemma_ei_latency(c: Cpu, m: MemModel)
    requires
        !c.ime,
        c.steps_since_request_ime_enable == Some(1u8),
        ({
            let byte = mem_read(m, c.pc);
            let dec = if c.prefixed {
                spec_decode_prefixed(byte)
            } else {
                spec_decode(byte)
            };
            dec matches Some(op) && op.kind != Some(OpKind::Di) && op.kind != Some(OpKind::Ei)
        }),
    ensures
        spec_cpu_step(c, m).0.ime,
{
    let byte = mem_read(m, c.pc);
    let dec = if c.prefixed {
        spec_decode_prefixed(byte)
    } else {
        spec_decode(byte)
    };
    let op = dec->0;
    let c1 = Cpu {
        prefixed: op.kind == Some(OpKind::Prefix),
        pc: wrap_add16(c.pc, op.size_bytes as u16),
        ..c
    };
    match op.kind {
        None => {},
        Some(k) => {
            // No executor but DI, EI and RETI touches IME or its deferred
            // counter, and RETI turns IME on outright.
            assert(exec_effect(k, c1, m).0.ime || exec_effect(
                k,
                c1,
                m,
            ).0.steps_since_request_ime_enable == Some(1u8));
        },
    }
}

/// A single tri-state flag write at a mask confined to the upper nibble
/// cannot disturb the low nibble of F.
proof fn lemma_apply_flag_low_nibble(f: u8, o: Option<bool>, mask: u8)
    requires
        mask & 0x0F == 0,
    ensures
        spec_apply_flag(f, o, mask) & 0x0F == f & 0x0F,
{
    assert(mask & 0x0F == 0 ==> ((f | mask) & 0x0F == f & 0x0F) && ((f & !mask) & 0x0F == f & 0x0F))
        by (bit_vector);
}

/// Flag writes only touch the upper nibble of F.
pub proof fn lemma_write_flags_low_nibble(f: u8, w: WriteFlags)
    ensures
        spec_write_flags(f, w) & 0x0F == f & 0x0F,
{
    assert(0x80u8 & 0x0F == 0 && 0x40u8 & 0x0F == 0 && 0x20u8 & 0x0F == 0 && 0x10u8 & 0x0F == 0)
        by (bit_vector);
    let f1 = spec_apply_flag(f, w.zero, 0x80);
    let f2 = spec_apply_flag(f1, w.subtract, 0x40);
    let f3 = spec_apply_flag(f2, w.half_carry, 0x20);
    lemma_apply_flag_low_nibble(f, w.zero, 0x80);
    lemma_apply_flag_low_nibble(f1, w.subtract, 0x40);
    lemma_apply_flag_low_nibble(f2, w.half_carry, 0x20);
    lemma_apply_flag_low_nibble(f3, w.carry, 0x10);
}

/// Writing one 8-bit register leaves every other register, the flags, PC, SP
/// and the interrupt state untouched: the frame rule behind `LD r8, r8'`.
pub proof fn lemma_write_r8_frame(c: Cpu, dst: Register, v: u8, other: Register)
    ensures
        other != dst ==> spec_read_r8(spec_write_r8(c, dst, v), other) == spec_read_r8(c, other),
        spec_write_r8(c, dst, v).f == c.f,
        spec_write_r8(c, dst, v).pc == c.pc,
        spec_write_r8(c, dst, v).sp == c.sp,
        spec_write_r8(c, dst, v).ime == c.ime,
        spec_write_r8(c, dst, v).steps_since_request_ime_enable
            == c.steps_since_request_ime_enable,
        spec_write_r8(c, dst, v).prefixed == c.prefixed,
{
}

/// `LD r8, r8'` copies the source into the destination and changes nothing
/// else: all other registers, the flags and the interrupt state read back
/// unchanged.
pub proof fn lemma_ld_r8_r8_frame(c: Cpu, dst: Register, src: Register, other: Register)
    ensures
        spec_read_r8(spec_write_r8(c, dst, spec_read_r8(c, src)), dst) == spec_read_r8(c, src),
        other != dst ==> spec_read_r8(spec_write_r8(c, dst, spec_read_r8(c, src)), other)
            == spec_read_r8(c, other),
        spec_write_r8(c, dst, spec_read_r8(c, src)).f == c.f,
        spec_write_r8(c, dst, spec_read_r8(c, src)).pc == c.pc,
        spec_write_r8(c, dst, spec_read_r8(c, src)).sp == c.sp,
        spec_write_r8(c, dst, spec_read_r8(c, src)).ime == c.ime,
        spec_write_r8(c, dst, spec_read_r8(c, src)).prefixed == c.prefixed,
{
    lemma_write_r8_frame(c, dst, spec_read_r8(c, src), other);
}

/// Writing a 16-bit pairing and reading it back is stable: the msb register
/// holds the high byte and the lsb register the low byte, and the paired read
/// reassembles the value. AF is the one exception: its low nibble reads back
/// as zero.
pub proof fn lemma_write_read_wide(c: Cpu, r: RegisterWide, v: u16)
    ensures
        r == RegisterWide::BC ==> spec_write_r16(c, r, v).b == v / 256 && spec_write_r16(c, r, v).c
            == v % 256,
        r == RegisterWide::DE ==> spec_write_r16(c, r, v).d == v / 256 && spec_write_r16(c, r, v).e
            == v % 256,
        r == RegisterWide::HL ==> spec_write_r16(c, r, v).h == v / 256 && spec_write_r16(c, r, v).l
            == v % 256,
        r != RegisterWide::AF ==> spec_read_r16(spec_write_r16(c, r, v), r) == v,
        r == RegisterWide::AF ==> spec_read_r16(spec_write_r16(c, r, v), r) == v & 0xFFF0,
{
    vstd::arithmetic::div_mod::lemma_fundamental_div_mod(v as int, 256);
    assert(spec_u16(spec_msb(v), spec_lsb(v)) == v);
    if r == RegisterWide::AF {
        let m = spec_msb(v);
        let l = spec_lsb(v);
        assert(spec_u16(m, (l & 0xF0) as u8) == v & 0xFFF0) by {
            lemma_af_pair_mask(m, l);
            assert(spec_u16(m, l) == v);
        };
    }
}

/// Masking the low nibble of the lsb before pairing equals masking the
/// paired 16-bit value with 0xFFF0.
proof fn lemma_af_pair_mask(m: u8, l: u8)
    ensures
        spec_u16(m, (l & 0xF0) as u8) == spec_u16(m, l) & 0xFFF0,
{
    let mm = m as u16;
    let ll = l as u16;
    let lm = (l & 0xF0) as u16;
    assert((mm < 256 && ll < 256 && lm == (ll & 0xF0)) ==> (mm * 256 + lm) == ((mm * 256 + ll) as u16
        & 0xFFF0)) by (bit_vector);
    assert(lm == (ll & 0xF0)) by (bit_vector)
        requires lm == ((l & 0xF0u8) as u16) && ll == l as u16 && l < 256;
}

} // verus!
