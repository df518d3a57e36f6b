//! The instruction set: opcode descriptors produced by the two 256-entry
//! decode tables, one executor per instruction family, and the dispatch that
//! runs a decoded opcode against the CPU and the bus.
//!
//! Every executor's behaviour is captured by a spec-level effect function
//! over the CPU register file and the bus model; `exec_effect` combines them
//! into the meaning of one decoded instruction.

use vstd::prelude::*;

use crate::cpu::{
    flags_wf, spec_flags, spec_read_r16, spec_read_r8, spec_write_flags, spec_write_r16,
    spec_write_r8, Cpu, Register, RegisterWide, WriteFlags,
};
use crate::memory::{mem_read, mem_wf, mem_write, Address, MemModel, Memory};
use crate::util;
use crate::util::{
    spec_lsb, spec_msb, spec_u16, wrap_add16, wrap_add8, wrap_add_signed16, wrap_sub16, wrap_sub8,
};

verus! {

/// What happens to the indirection register after an indirect load: nothing,
/// a post-increment, or a post-decrement.
#[derive(Clone, Copy, PartialEq, Eq, Structural, Debug)]
pub enum IndirectAddressingMode {
    Retain,
    Increment,
    Decrement,
}

/// The four testable conditions of conditional jumps, calls and returns.
#[derive(Clone, Copy, PartialEq, Eq, Structural, Debug)]
pub enum Cond {
    NotZero,
    Zero,
    NotCarry,
    Carry,
}

/// The eight 8-bit accumulator operations.
#[derive(Clone, Copy, PartialEq, Eq, Structural, Debug)]
pub enum AluOp {
    Add,
    Adc,
    Sub,
    Sbc,
    And,
    Xor,
    Or,
    Cp,
}

/// The instruction family a decoded opcode dispatches to, with its operand
/// descriptors.
#[derive(Clone, Copy, PartialEq, Eq, Structural, Debug)]
pub enum OpKind {
    Nop,
    Stop,
    Prefix,
    LdR8R8(Register, Register),
    LdR8N8(Register),
    LdR16N16(RegisterWide),
    LdR8IndR16(Register, RegisterWide, IndirectAddressingMode),
    LdIndR16R8(RegisterWide, Register, IndirectAddressingMode),
    LdIndHlN8,
    IncIndHl,
    DecIndHl,
    IncR8(Register),
    DecR8(Register),
    IncR16(RegisterWide),
    DecR16(RegisterWide),
    AddHlR16(RegisterWide),
    AluR8(AluOp, Register),
    AluIndHl(AluOp),
    AluN8(AluOp),
    Rlca,
    Rla,
    Rra,
    Cpl,
    Jr,
    JrCond(Cond),
    Jp,
    JpCond(Cond),
    JpHl,
    Call,
    CallCond(Cond),
    Ret,
    RetCond(Cond),
    Reti,
    Rst(u8),
    Push(RegisterWide),
    Pop(RegisterWide),
    LdhA8A,
    LdhAA8,
    LdIndCA,
    LdA16A,
    LdAA16,
    LdA16Sp,
    AddSpE8,
    LdHlSpE8,
    LdSpHl,
    Di,
    Ei,
    RlR8(Register),
    RrR8(Register),
    SlaR8(Register),
    SrlR8(Register),
    SwapR8(Register),
    BitR8(u8, Register),
    BitIndHl(u8),
    ResR8(u8, Register),
    ResIndHl(u8),
    SetIndHl(u8),
}

impl OpKind {
    /// Bit-indexed families carry an index below 8.
    pub open spec fn wf(self) -> bool {
        match self {
            OpKind::BitR8(b, _) => b < 8,
            OpKind::BitIndHl(b) => b < 8,
            OpKind::ResR8(b, _) => b < 8,
            OpKind::ResIndHl(b) => b < 8,
            OpKind::SetIndHl(b) => b < 8,
            _ => true,
        }
    }
}

/// A decoded instruction: its size in bytes, which the CPU adds to PC before
/// executing, and the family it dispatches to. A `None` kind is a decoded
/// instruction whose executor is not implemented; running it changes
/// nothing.
#[derive(Clone, Copy, PartialEq, Eq, Structural, Debug)]
pub struct Opcode {
    pub size_bytes: u8,
    pub kind: Option<OpKind>,
}

impl Opcode {
    pub open spec fn wf(self) -> bool {
        &&& 1 <= self.size_bytes <= 3
        &&& match self.kind {
            Some(k) => k.wf(),
            None => true,
        }
    }
}

// ---------------------------------------------------------------------------
// Spec-level effects
// ---------------------------------------------------------------------------

/// The register file with a tri-state flag write applied.
pub open spec fn flags_after(c: Cpu, w: WriteFlags) -> Cpu {
    Cpu { f: spec_write_flags(c.f, w), ..c }
}

/// Whether a condition holds of the current flags.
pub open spec fn cond_holds(c: Cpu, cond: Cond) -> bool {
    match cond {
        Cond::NotZero => !spec_flags(c.f).zero,
        Cond::Zero => spec_flags(c.f).zero,
        Cond::NotCarry => !spec_flags(c.f).carry,
        Cond::Carry => spec_flags(c.f).carry,
    }
}

/// An accumulator operation applied to A and an operand byte, including the
/// incoming carry for ADC/SBC: the new register file with all four flags
/// written (CP leaves A itself alone).
pub open spec fn effect_alu(c: Cpu, op: AluOp, b: u8) -> Cpu {
    let a = c.a;
    let cin: u8 = if spec_flags(c.f).carry { 1 } else { 0 };
    match op {
        AluOp::Add => {
            let r = wrap_add8(a, b);
            flags_after(
                Cpu { a: r, ..c },
                WriteFlags {
                    zero: Some(r == 0),
                    subtract: Some(false),
                    half_carry: Some((a & 0xF) + (b & 0xF) > 0xF),
                    carry: Some(a + b > 0xFF),
                },
            )
        },
        AluOp::Adc => {
            let r = ((a + b + cin) % 0x100) as u8;
            flags_after(
                Cpu { a: r, ..c },
                WriteFlags {
                    zero: Some(r == 0),
                    subtract: Some(false),
                    half_carry: Some((a & 0xF) + (b & 0xF) + cin > 0xF),
                    carry: Some(a + b + cin > 0xFF),
                },
            )
        },
        AluOp::Sub => {
            let r = wrap_sub8(a, b);
            flags_after(
                Cpu { a: r, ..c },
                WriteFlags {
                    zero: Some(r == 0),
                    subtract: Some(true),
                    half_carry: Some((a & 0xF) < (b & 0xF)),
                    carry: Some(a < b),
                },
            )
        },
        AluOp::Sbc => {
            let r = ((a + 0x200 - b - cin) % 0x100) as u8;
            flags_after(
                Cpu { a: r, ..c },
                WriteFlags {
                    zero: Some(r == 0),
                    subtract: Some(true),
                    half_carry: Some((a & 0xF) < (b & 0xF) + cin),
                    carry: Some(a < b + cin),
                },
            )
        },
        AluOp::And => {
            let r = a & b;
            flags_after(
                Cpu { a: r, ..c },
                WriteFlags {
                    zero: Some(r == 0),
                    subtract: Some(false),
                    half_carry: Some(true),
                    carry: Some(false),
                },
            )
        },
        AluOp::Xor => {
            let r = a ^ b;
            flags_after(
                Cpu { a: r, ..c },
                WriteFlags {
                    zero: Some(r == 0),
                    subtract: Some(false),
                    half_carry: Some(false),
                    carry: Some(false),
                },
            )
        },
        AluOp::Or => {
            let r = a | b;
            flags_after(
                Cpu { a: r, ..c },
                WriteFlags {
                    zero: Some(r == 0),
                    subtract: Some(false),
                    half_carry: Some(false),
                    carry: Some(false),
                },
            )
        },
        AluOp::Cp => {
            let r = wrap_sub8(a, b);
            flags_after(
                c,
                WriteFlags {
                    zero: Some(r == 0),
                    subtract: Some(true),
                    half_carry: Some((a & 0xF) < (b & 0xF)),
                    carry: Some(a < b),
                },
            )
        },
    }
}

/// INC r8: adds one, writes Z, N and H, and leaves the carry flag alone.
pub open spec fn effect_inc_r8(c: Cpu, r: Register) -> Cpu {
    let a = spec_read_r8(c, r);
    let res = wrap_add8(a, 1);
    flags_after(
        spec_write_r8(c, r, res),
        WriteFlags {
            zero: Some(res == 0),
            subtract: Some(false),
            half_carry: Some((a & 0xF) + 1 > 0xF),
            carry: None,
        },
    )
}

/// DEC r8: subtracts one, writes Z, N and H, and leaves the carry flag alone.
pub open spec fn effect_dec_r8(c: Cpu, r: Register) -> Cpu {
    let a = spec_read_r8(c, r);
    let res = wrap_sub8(a, 1);
    flags_after(
        spec_write_r8(c, r, res),
        WriteFlags {
            zero: Some(res == 0),
            subtract: Some(true),
            half_carry: Some((a & 0xF) < 1),
            carry: None,
        },
    )
}

/// INC r16 / DEC r16 write no flags.
pub open spec fn effect_inc_r16(c: Cpu, r: RegisterWide) -> Cpu {
    spec_write_r16(c, r, wrap_add16(spec_read_r16(c, r), 1))
}

pub open spec fn effect_dec_r16(c: Cpu, r: RegisterWide) -> Cpu {
    spec_write_r16(c, r, wrap_sub16(spec_read_r16(c, r), 1))
}

/// ADD HL, r16: 16-bit add into HL; N cleared, H from bit 11, C from bit 15,
/// Z untouched.
pub open spec fn effect_add_hl_r16(c: Cpu, r: RegisterWide) -> Cpu {
    let hl = spec_read_r16(c, RegisterWide::HL);
    let v = spec_read_r16(c, r);
    flags_after(
        spec_write_r16(c, RegisterWide::HL, wrap_add16(hl, v)),
        WriteFlags {
            zero: None,
            subtract: Some(false),
            half_carry: Some((hl & 0x0FFF) + (v & 0x0FFF) > 0x0FFF),
            carry: Some(hl + v > 0xFFFF),
        },
    )
}

/// RLCA: rotate A left; Z, N and H cleared, C takes the old bit 7.
pub open spec fn effect_rlca(c: Cpu) -> Cpu {
    let v = c.a;
    flags_after(
        Cpu { a: (v << 1) | (v >> 7), ..c },
        WriteFlags {
            zero: Some(false),
            subtract: Some(false),
            half_carry: Some(false),
            carry: Some(v & 0x80 != 0),
        },
    )
}

/// RLA: rotate A left through the carry flag; Z, N and H cleared.
pub open spec fn effect_rla(c: Cpu) -> Cpu {
    let v = c.a;
    let r = if spec_flags(c.f).carry { (v << 1) | 1 } else { v << 1 };
    flags_after(
        Cpu { a: r, ..c },
        WriteFlags {
            zero: Some(false),
            subtract: Some(false),
            half_carry: Some(false),
            carry: Some(v & 0x80 != 0),
        },
    )
}

/// RRA: rotate A right through the carry flag; Z, N and H cleared.
pub open spec fn effect_rra(c: Cpu) -> Cpu {
    let v = c.a;
    let r = if spec_flags(c.f).carry { (v >> 1) | 0x80 } else { v >> 1 };
    flags_after(
        Cpu { a: r, ..c },
        WriteFlags {
            zero: Some(false),
            subtract: Some(false),
            half_carry: Some(false),
            carry: Some(v & 1 != 0),
        },
    )
}

/// CPL: complement A; N and H set, Z and C untouched.
pub open spec fn effect_cpl(c: Cpu) -> Cpu {
    flags_after(
        Cpu { a: !c.a, ..c },
        WriteFlags { zero: None, subtract: Some(true), half_carry: Some(true), carry: None },
    )
}

/// RL r8 (prefixed): rotate left through carry; Z from the result.
pub open spec fn effect_rl_r8(c: Cpu, r: Register) -> Cpu {
    let v = spec_read_r8(c, r);
    let res = if spec_flags(c.f).carry { (v << 1) | 1 } else { v << 1 };
    flags_after(
        spec_write_r8(c, r, res),
        WriteFlags {
            zero: Some(res == 0),
            subtract: Some(false),
            half_carry: Some(false),
            carry: Some(v & 0x80 != 0),
        },
    )
}

/// RR r8 (prefixed): rotate right through carry; Z from the result.
pub open spec fn effect_rr_r8(c: Cpu, r: Register) -> Cpu {
    let v = spec_read_r8(c, r);
    let res = if spec_flags(c.f).carry { (v >> 1) | 0x80 } else { v >> 1 };
    flags_after(
        spec_write_r8(c, r, res),
        WriteFlags {
            zero: Some(res == 0),
            subtract: Some(false),
            half_carry: Some(false),
            carry: Some(v & 1 != 0),
        },
    )
}

/// SLA r8: shift left into carry; bit 0 becomes zero.
pub open spec fn effect_sla_r8(c: Cpu, r: Register) -> Cpu {
    let v = spec_read_r8(c, r);
    let res = v << 1;
    flags_after(
        spec_write_r8(c, r, res),
        WriteFlags {
            zero: Some(res == 0),
            subtract: Some(false),
            half_carry: Some(false),
            carry: Some(v & 0x80 != 0),
        },
    )
}

/// SRL r8: shift right into carry; bit 7 becomes zero.
pub open spec fn effect_srl_r8(c: Cpu, r: Register) -> Cpu {
    let v = spec_read_r8(c, r);
    let res = v >> 1;
    flags_after(
        spec_write_r8(c, r, res),
        WriteFlags {
            zero: Some(res == 0),
            subtract: Some(false),
            half_carry: Some(false),
            carry: Some(v & 1 != 0),
        },
    )
}

/// SWAP r8: exchange the nibbles; only Z can end up set.
pub open spec fn effect_swap_r8(c: Cpu, r: Register) -> Cpu {
    let v = spec_read_r8(c, r);
    let res = (v << 4) | (v >> 4);
    flags_after(
        spec_write_r8(c, r, res),
        WriteFlags {
            zero: Some(res == 0),
            subtract: Some(false),
            half_carry: Some(false),
            carry: Some(false),
        },
    )
}

/// BIT b, r8: Z is the complement of the tested bit; N cleared, H set, C
/// untouched.
pub open spec fn effect_bit(c: Cpu, b: u8, v: u8) -> Cpu {
    flags_after(
        c,
        WriteFlags {
            zero: Some(v & (1u8 << b) == 0),
            subtract: Some(false),
            half_carry: Some(true),
            carry: None,
        },
    )
}

/// RES b, r8: clears one bit, no flags.
pub open spec fn effect_res_r8(c: Cpu, b: u8, r: Register) -> Cpu {
    spec_write_r8(c, r, spec_read_r8(c, r) & !(1u8 << b))
}

/// DI clears IME at once; EI requests it with a one-instruction delay; RETI
/// restores it with no delay while returning.
pub open spec fn effect_di(c: Cpu) -> Cpu {
    Cpu { ime: false, steps_since_request_ime_enable: None, ..c }
}

pub open spec fn effect_ei(c: Cpu) -> Cpu {
    Cpu { steps_since_request_ime_enable: Some(0u8), ..c }
}

/// JP HL and LD SP, HL.
pub open spec fn effect_jp_hl(c: Cpu) -> Cpu {
    Cpu { pc: spec_u16(c.h, c.l), ..c }
}

pub open spec fn effect_ld_sp_hl(c: Cpu) -> Cpu {
    Cpu { sp: spec_u16(c.h, c.l), ..c }
}

/// The byte at PC - k, where the executor-visible PC has already been
/// advanced past the instruction.
pub open spec fn operand(c: Cpu, m: MemModel, k: u16) -> u8 {
    mem_read(m, wrap_sub16(c.pc, k))
}

/// The 16-bit immediate of a 3-byte instruction: msb at PC - 1, lsb at
/// PC - 2.
pub open spec fn operand16(c: Cpu, m: MemModel) -> u16 {
    spec_u16(operand(c, m, 1), operand(c, m, 2))
}

/// LD r8, n8.
pub open spec fn effect_ld_r8_n8(c: Cpu, m: MemModel, r: Register) -> Cpu {
    spec_write_r8(c, r, operand(c, m, 1))
}

/// LD r16, n16.
pub open spec fn effect_ld_r16_n16(c: Cpu, m: MemModel, r: RegisterWide) -> Cpu {
    spec_write_r16(c, r, operand16(c, m))
}

/// LD r8, [r16], with the indirection register then retained, incremented or
/// decremented. The post-adjustment reads the pair again after the
/// destination write, so a destination inside the pair is adjusted as
/// written.
pub open spec fn effect_ld_r8_ind_r16(
    c: Cpu,
    m: MemModel,
    dst: Register,
    src: RegisterWide,
    mode: IndirectAddressingMode,
) -> Cpu {
    let value = mem_read(m, spec_read_r16(c, src));
    let c1 = spec_write_r8(c, dst, value);
    let rv = spec_read_r16(c1, src);
    match mode {
        IndirectAddressingMode::Retain => c1,
        IndirectAddressingMode::Increment => spec_write_r16(c1, src, wrap_add16(rv, 1)),
        IndirectAddressingMode::Decrement => spec_write_r16(c1, src, wrap_sub16(rv, 1)),
    }
}

/// LD [r16], r8, with the indirection register then retained, incremented or
/// decremented from its value before the store.
pub open spec fn effect_ld_ind_r16_r8(
    c: Cpu,
    m: MemModel,
    dst: RegisterWide,
    src: Register,
    mode: IndirectAddressingMode,
) -> (Cpu, MemModel) {
    let addr = spec_read_r16(c, dst);
    let m1 = mem_write(m, addr, spec_read_r8(c, src));
    let nv = match mode {
        IndirectAddressingMode::Retain => addr,
        IndirectAddressingMode::Increment => wrap_add16(addr, 1),
        IndirectAddressingMode::Decrement => wrap_sub16(addr, 1),
    };
    (spec_write_r16(c, dst, nv), m1)
}

/// LD [HL], n8.
pub open spec fn effect_ld_ind_hl_n8(c: Cpu, m: MemModel) -> (Cpu, MemModel) {
    (c, mem_write(m, spec_u16(c.h, c.l), operand(c, m, 1)))
}

/// INC [HL].
pub open spec fn effect_inc_ind_hl(c: Cpu, m: MemModel) -> (Cpu, MemModel) {
    let hl = spec_u16(c.h, c.l);
    let v = mem_read(m, hl);
    let res = wrap_add8(v, 1);
    (
        flags_after(
            c,
            WriteFlags {
                zero: Some(res == 0),
                subtract: Some(false),
                half_carry: Some((v & 0xF) + 1 > 0xF),
                carry: None,
            },
        ),
        mem_write(m, hl, res),
    )
}

/// DEC [HL].
pub open spec fn effect_dec_ind_hl(c: Cpu, m: MemModel) -> (Cpu, MemModel) {
    let hl = spec_u16(c.h, c.l);
    let v = mem_read(m, hl);
    let res = wrap_sub8(v, 1);
    (
        flags_after(
            c,
            WriteFlags {
                zero: Some(res == 0),
                subtract: Some(true),
                half_carry: Some((v & 0xF) < 1),
                carry: None,
            },
        ),
        mem_write(m, hl, res),
    )
}

/// JP a16.
pub open spec fn effect_jp(c: Cpu, m: MemModel) -> Cpu {
    Cpu { pc: operand16(c, m), ..c }
}

/// JR e8: PC-relative signed jump from the already-advanced PC.
pub open spec fn effect_jr(c: Cpu, m: MemModel) -> Cpu {
    Cpu { pc: wrap_add_signed16(c.pc, operand(c, m, 1)), ..c }
}

/// CALL a16: push the return address (lsb at SP - 2 first, then msb at
/// SP - 1), drop SP by two and jump.
pub open spec fn effect_call(c: Cpu, m: MemModel) -> (Cpu, MemModel) {
    let target = operand16(c, m);
    let nsp = wrap_sub16(c.sp, 2);
    let m1 = mem_write(m, nsp, spec_lsb(c.pc));
    let m2 = mem_write(m1, wrap_add16(nsp, 1), spec_msb(c.pc));
    (Cpu { sp: nsp, pc: target, ..c }, m2)
}

/// RST: push the return address (msb at SP - 1 first, then lsb at SP - 2)
/// and jump to a fixed page-zero target.
pub open spec fn effect_rst(c: Cpu, m: MemModel, target: u8) -> (Cpu, MemModel) {
    let m1 = mem_write(m, wrap_sub16(c.sp, 1), spec_msb(c.pc));
    let m2 = mem_write(m1, wrap_sub16(c.sp, 2), spec_lsb(c.pc));
    (Cpu { sp: wrap_sub16(c.sp, 2), pc: target as u16, ..c }, m2)
}

/// PUSH r16: msb at SP - 1, lsb at SP - 2, then SP drops by two.
pub open spec fn effect_push(c: Cpu, m: MemModel, r: RegisterWide) -> (Cpu, MemModel) {
    let v = spec_read_r16(c, r);
    let m1 = mem_write(m, wrap_sub16(c.sp, 1), spec_msb(v));
    let m2 = mem_write(m1, wrap_sub16(c.sp, 2), spec_lsb(v));
    (Cpu { sp: wrap_sub16(c.sp, 2), ..c }, m2)
}

/// POP r16: lsb at SP, msb at SP + 1, SP rises by two before the pair is
/// written.
pub open spec fn effect_pop(c: Cpu, m: MemModel, r: RegisterWide) -> Cpu {
    let lsb = mem_read(m, c.sp);
    let msb = mem_read(m, wrap_add16(c.sp, 1));
    let c1 = Cpu { sp: wrap_add16(c.sp, 2), ..c };
    spec_write_r16(c1, r, spec_u16(msb, lsb))
}

/// RET is POP into PC; RETI additionally restores IME with no delay.
pub open spec fn effect_ret(c: Cpu, m: MemModel) -> Cpu {
    effect_pop(c, m, RegisterWide::PC)
}

pub open spec fn effect_reti(c: Cpu, m: MemModel) -> Cpu {
    effect_pop(Cpu { ime: true, steps_since_request_ime_enable: None, ..c }, m, RegisterWide::PC)
}

/// LDH [a8], A: store A at 0xFF00 + n8.
pub open spec fn effect_ldh_a8_a(c: Cpu, m: MemModel) -> (Cpu, MemModel) {
    (c, mem_write(m, spec_u16(0xFF, operand(c, m, 1)), c.a))
}

/// LDH A, [a8]: load A from 0xFF00 + n8.
pub open spec fn effect_ldh_a_a8(c: Cpu, m: MemModel) -> Cpu {
    Cpu { a: mem_read(m, spec_u16(0xFF, operand(c, m, 1))), ..c }
}

/// LD [C], A: store A at 0xFF00 + C.
pub open spec fn effect_ld_ind_c_a(c: Cpu, m: MemModel) -> (Cpu, MemModel) {
    (c, mem_write(m, spec_u16(0xFF, c.c), c.a))
}

/// LD [a16], A and LD A, [a16].
pub open spec fn effect_ld_a16_a(c: Cpu, m: MemModel) -> (Cpu, MemModel) {
    (c, mem_write(m, operand16(c, m), c.a))
}

pub open spec fn effect_ld_a_a16(c: Cpu, m: MemModel) -> Cpu {
    Cpu { a: mem_read(m, operand16(c, m)), ..c }
}

/// LD [a16], SP: the stack pointer stored little-endian.
pub open spec fn effect_ld_a16_sp(c: Cpu, m: MemModel) -> (Cpu, MemModel) {
    let addr = operand16(c, m);
    let m1 = mem_write(m, addr, spec_lsb(c.sp));
    let m2 = mem_write(m1, wrap_add16(addr, 1), spec_msb(c.sp));
    (c, m2)
}

/// The flags of the SP + e8 additions: computed from the low byte of SP and
/// the unsigned immediate, with Z and N cleared.
pub open spec fn sp_e8_flags(sp: u16, imm: u8) -> WriteFlags {
    let low = (sp % 0x100) as u8;
    WriteFlags {
        zero: Some(false),
        subtract: Some(false),
        half_carry: Some((low & 0xF) + (imm & 0xF) > 0xF),
        carry: Some(low + imm > 0xFF),
    }
}

/// ADD SP, e8.
pub open spec fn effect_add_sp_e8(c: Cpu, m: MemModel) -> Cpu {
    let imm = operand(c, m, 1);
    flags_after(
        Cpu { sp: wrap_add_signed16(c.sp, imm), ..c },
        sp_e8_flags(c.sp, imm),
    )
}

/// LD HL, SP + e8.
pub open spec fn effect_ld_hl_sp_e8(c: Cpu, m: MemModel) -> Cpu {
    let imm = operand(c, m, 1);
    let v = wrap_add_signed16(c.sp, imm);
    flags_after(
        spec_write_r16(c, RegisterWide::HL, v),
        sp_e8_flags(c.sp, imm),
    )
}

/// BIT b, [HL]; RES b, [HL]; SET b, [HL].
pub open spec fn effect_bit_ind_hl(c: Cpu, m: MemModel, b: u8) -> Cpu {
    effect_bit(c, b, mem_read(m, spec_u16(c.h, c.l)))
}

pub open spec fn effect_res_ind_hl(c: Cpu, m: MemModel, b: u8) -> (Cpu, MemModel) {
    let hl = spec_u16(c.h, c.l);
    (c, mem_write(m, hl, mem_read(m, hl) & !(1u8 << b)))
}

pub open spec fn effect_set_ind_hl(c: Cpu, m: MemModel, b: u8) -> (Cpu, MemModel) {
    let hl = spec_u16(c.h, c.l);
    (c, mem_write(m, hl, mem_read(m, hl) | (1u8 << b)))
}

/// The meaning of one decoded instruction: the register file and bus after
/// its executor runs, given the PC already advanced past the instruction.
pub open spec fn exec_effect(k: OpKind, c: Cpu, m: MemModel) -> (Cpu, MemModel) {
    match k {
        OpKind::Nop => (c, m),
        OpKind::Stop => (c, m),
        OpKind::Prefix => (c, m),
        OpKind::LdR8R8(dst, src) => (spec_write_r8(c, dst, spec_read_r8(c, src)), m),
        OpKind::LdR8N8(r) => (effect_ld_r8_n8(c, m, r), m),
        OpKind::LdR16N16(r) => (effect_ld_r16_n16(c, m, r), m),
        OpKind::LdR8IndR16(dst, src, mode) => (effect_ld_r8_ind_r16(c, m, dst, src, mode), m),
        OpKind::LdIndR16R8(dst, src, mode) => effect_ld_ind_r16_r8(c, m, dst, src, mode),
        OpKind::LdIndHlN8 => effect_ld_ind_hl_n8(c, m),
        OpKind::IncIndHl => effect_inc_ind_hl(c, m),
        OpKind::DecIndHl => effect_dec_ind_hl(c, m),
        OpKind::IncR8(r) => (effect_inc_r8(c, r), m),
        OpKind::DecR8(r) => (effect_dec_r8(c, r), m),
        OpKind::IncR16(r) => (effect_inc_r16(c, r), m),
        OpKind::DecR16(r) => (effect_dec_r16(c, r), m),
        OpKind::AddHlR16(r) => (effect_add_hl_r16(c, r), m),
        OpKind::AluR8(op, r) => (effect_alu(c, op, spec_read_r8(c, r)), m),
        OpKind::AluIndHl(op) => (effect_alu(c, op, mem_read(m, spec_u16(c.h, c.l))), m),
        OpKind::AluN8(op) => (effect_alu(c, op, operand(c, m, 1)), m),
        OpKind::Rlca => (effect_rlca(c), m),
        OpKind::Rla => (effect_rla(c), m),
        OpKind::Rra => (effect_rra(c), m),
        OpKind::Cpl => (effect_cpl(c), m),
        OpKind::Jr => (effect_jr(c, m), m),
        OpKind::JrCond(cond) => if cond_holds(c, cond) {
            (effect_jr(c, m), m)
        } else {
            (c, m)
        },
        OpKind::Jp => (effect_jp(c, m), m),
        OpKind::JpCond(cond) => if cond_holds(c, cond) {
            (effect_jp(c, m), m)
        } else {
            (c, m)
        },
        OpKind::JpHl => (effect_jp_hl(c), m),
        OpKind::Call => effect_call(c, m),
        OpKind::CallCond(cond) => if cond_holds(c, cond) {
            effect_call(c, m)
        } else {
            (c, m)
        },
        OpKind::Ret => (effect_ret(c, m), m),
        OpKind::RetCond(cond) => if cond_holds(c, cond) {
            (effect_ret(c, m), m)
        } else {
            (c, m)
        },
        OpKind::Reti => (effect_reti(c, m), m),
        OpKind::Rst(target) => effect_rst(c, m, target),
        OpKind::Push(r) => effect_push(c, m, r),
        OpKind::Pop(r) => (effect_pop(c, m, r), m),
        OpKind::LdhA8A => effect_ldh_a8_a(c, m),
        OpKind::LdhAA8 => (effect_ldh_a_a8(c, m), m),
        OpKind::LdIndCA => effect_ld_ind_c_a(c, m),
        OpKind::LdA16A => effect_ld_a16_a(c, m),
        OpKind::LdAA16 => (effect_ld_a_a16(c, m), m),
        OpKind::LdA16Sp => effect_ld_a16_sp(c, m),
        OpKind::AddSpE8 => (effect_add_sp_e8(c, m), m),
        OpKind::LdHlSpE8 => (effect_ld_hl_sp_e8(c, m), m),
        OpKind::LdSpHl => (effect_ld_sp_hl(c), m),
        OpKind::Di => (effect_di(c), m),
        OpKind::Ei => (effect_ei(c), m),
        OpKind::RlR8(r) => (effect_rl_r8(c, r), m),
        OpKind::RrR8(r) => (effect_rr_r8(c, r), m),
        OpKind::SlaR8(r) => (effect_sla_r8(c, r), m),
        OpKind::SrlR8(r) => (effect_srl_r8(c, r), m),
        OpKind::SwapR8(r) => (effect_swap_r8(c, r), m),
        OpKind::BitR8(b, r) => (effect_bit(c, b, spec_read_r8(c, r)), m),
        OpKind::BitIndHl(b) => (effect_bit_ind_hl(c, m, b), m),
        OpKind::ResR8(b, r) => (effect_res_r8(c, b, r), m),
        OpKind::ResIndHl(b) => effect_res_ind_hl(c, m, b),
        OpKind::SetIndHl(b) => effect_set_ind_hl(c, m, b),
    }
}

// ---------------------------------------------------------------------------
// Executors
// ---------------------------------------------------------------------------

/// Whether a condition holds of the current flags.
fn condition(cpu: &Cpu, cond: Cond) -> (r: bool)
    ensures
        r == cond_holds(*cpu, cond),
{
    let flags = cpu.read_flags();
    match cond {
        Cond::NotZero => !flags.zero,
        Cond::Zero => flags.zero,
        Cond::NotCarry => !flags.carry,
        Cond::Carry => flags.carry,
    }
}

/// Runs one accumulator operation against an operand byte, writing all four
/// flags as `effect_alu` prescribes.
fn alu_a(cpu: &mut Cpu, op: AluOp, b: u8)
    ensures
        *final(cpu) == effect_alu(*old(cpu), op, b),
        flags_wf(*old(cpu)) ==> flags_wf(*final(cpu)),
{
    let a = cpu.read_register(Register::A);
    match op {
        AluOp::Add => {
            let sum: u16 = a as u16 + b as u16;
            let result: u8 = (sum % 0x100) as u8;
            cpu.write_register(Register::A, result);
            cpu.write_flags(WriteFlags {
                zero: Some(result == 0),
                subtract: Some(false),
                half_carry: Some(util::half_carried_add8(a, b)),
                carry: Some(sum > 0xFF),
            });
        },
        AluOp::Adc => {
            let cin: u8 = if cpu.read_flags().carry {
                1
            } else {
                0
            };
            let sum: u16 = a as u16 + b as u16 + cin as u16;
            let result: u8 = (sum % 0x100) as u8;
            let half = (a & 0xF) as u16 + (b & 0xF) as u16 + cin as u16 > 0xF;
            cpu.write_register(Register::A, result);
            cpu.write_flags(WriteFlags {
                zero: Some(result == 0),
                subtract: Some(false),
                half_carry: Some(half),
                carry: Some(sum > 0xFF),
            });
        },
        AluOp::Sub => {
            let diff: u16 = a as u16 + 0x100 - b as u16;
            let result: u8 = (diff % 0x100) as u8;
            cpu.write_register(Register::A, result);
            cpu.write_flags(WriteFlags {
                zero: Some(result == 0),
                subtract: Some(true),
                half_carry: Some(util::half_carried_sub8(a, b)),
                carry: Some(a < b),
            });
        },
        AluOp::Sbc => {
            let cin: u8 = if cpu.read_flags().carry {
                1
            } else {
                0
            };
            let diff: u16 = a as u16 + 0x200 - b as u16 - cin as u16;
            let result: u8 = (diff % 0x100) as u8;
            let half = ((a & 0xF) as u16) < (b & 0xF) as u16 + cin as u16;
            let carried = (a as u16) < b as u16 + cin as u16;
            cpu.write_register(Register::A, result);
            cpu.write_flags(WriteFlags {
                zero: Some(result == 0),
                subtract: Some(true),
                half_carry: Some(half),
                carry: Some(carried),
            });
        },
        AluOp::And => {
            let result = a & b;
            cpu.write_register(Register::A, result);
            cpu.write_flags(WriteFlags {
                zero: Some(result == 0),
                subtract: Some(false),
                half_carry: Some(true),
                carry: Some(false),
            });
        },
        AluOp::Xor => {
            let result = a ^ b;
            cpu.write_register(Register::A, result);
            cpu.write_flags(WriteFlags {
                zero: Some(result == 0),
                subtract: Some(false),
                half_carry: Some(false),
                carry: Some(false),
            });
        },
        AluOp::Or => {
            let result = a | b;
            cpu.write_register(Register::A, result);
            cpu.write_flags(WriteFlags {
                zero: Some(result == 0),
                subtract: Some(false),
                half_carry: Some(false),
                carry: Some(false),
            });
        },
        AluOp::Cp => {
            let diff: u16 = a as u16 + 0x100 - b as u16;
            let result: u8 = (diff % 0x100) as u8;
            cpu.write_flags(WriteFlags {
                zero: Some(result == 0),
                subtract: Some(true),
                half_carry: Some(util::half_carried_sub8(a, b)),
                carry: Some(a < b),
            });
        },
    }
}

pub fn add_r8(cpu: &mut Cpu, r: Register)
    ensures
        *final(cpu) == effect_alu(*old(cpu), AluOp::Add, spec_read_r8(*old(cpu), r)),
        flags_wf(*old(cpu)) ==> flags_wf(*final(cpu)),
{
    let b = cpu.read_register(r);
    alu_a(cpu, AluOp::Add, b);
}

pub fn adc_r8(cpu: &mut Cpu, r: Register)
    ensures
        *final(cpu) == effect_alu(*old(cpu), AluOp::Adc, spec_read_r8(*old(cpu), r)),
        flags_wf(*old(cpu)) ==> flags_wf(*final(cpu)),
{
    let b = cpu.read_register(r);
    alu_a(cpu, AluOp::Adc, b);
}

pub fn sub_r8(cpu: &mut Cpu, r: Register)
    ensures
        *final(cpu) == effect_alu(*old(cpu), AluOp::Sub, spec_read_r8(*old(cpu), r)),
        flags_wf(*old(cpu)) ==> flags_wf(*final(cpu)),
{
    let b = cpu.read_register(r);
    alu_a(cpu, AluOp::Sub, b);
}

pub fn sbc_r8(cpu: &mut Cpu, r: Register)
    ensures
        *final(cpu) == effect_alu(*old(cpu), AluOp::Sbc, spec_read_r8(*old(cpu), r)),
        flags_wf(*old(cpu)) ==> flags_wf(*final(cpu)),
{
    let b = cpu.read_register(r);
    alu_a(cpu, AluOp::Sbc, b);
}

pub fn and_r8(cpu: &mut Cpu, r: Register)
    ensures
        *final(cpu) == effect_alu(*old(cpu), AluOp::And, spec_read_r8(*old(cpu), r)),
        flags_wf(*old(cpu)) ==> flags_wf(*final(cpu)),
{
    let b = cpu.read_register(r);
    alu_a(cpu, AluOp::And, b);
}

pub fn xor_r8(cpu: &mut Cpu, r: Register)
    ensures
        *final(cpu) == effect_alu(*old(cpu), AluOp::Xor, spec_read_r8(*old(cpu), r)),
        flags_wf(*old(cpu)) ==> flags_wf(*final(cpu)),
{
    let b = cpu.read_register(r);
    alu_a(cpu, AluOp::Xor, b);
}

pub fn or_r8(cpu: &mut Cpu, r: Register)
    ensures
        *final(cpu) == effect_alu(*old(cpu), AluOp::Or, spec_read_r8(*old(cpu), r)),
        flags_wf(*old(cpu)) ==> flags_wf(*final(cpu)),
{
    let b = cpu.read_register(r);
    alu_a(cpu, AluOp::Or, b);
}

pub fn cp_r8(cpu: &mut Cpu, r: Register)
    ensures
        *final(cpu) == effect_alu(*old(cpu), AluOp::Cp, spec_read_r8(*old(cpu), r)),
        flags_wf(*old(cpu)) ==> flags_wf(*final(cpu)),
{
    let b = cpu.read_register(r);
    alu_a(cpu, AluOp::Cp, b);
}

pub fn inc_r8(cpu: &mut Cpu, r: Register)
    ensures
        *final(cpu) == effect_inc_r8(*old(cpu), r),
        flags_wf(*old(cpu)) ==> flags_wf(*final(cpu)),
{
    let a = cpu.read_register(r);
    let result = util::add8(a, 1);
    cpu.write_register(r, result);
    proof {
        util::lemma_low_nibble_one();
    }
    cpu.write_flags(WriteFlags {
        zero: Some(result == 0),
        subtract: Some(false),
        half_carry: Some(util::half_carried_add8(a, 1)),
        carry: None,
    });
}

pub fn dec_r8(cpu: &mut Cpu, r: Register)
    ensures
        *final(cpu) == effect_dec_r8(*old(cpu), r),
        flags_wf(*old(cpu)) ==> flags_wf(*final(cpu)),
{
    let a = cpu.read_register(r);
    let result = util::sub8(a, 1);
    cpu.write_register(r, result);
    proof {
        util::lemma_low_nibble_one();
    }
    cpu.write_flags(WriteFlags {
        zero: Some(result == 0),
        subtract: Some(true),
        half_carry: Some(util::half_carried_sub8(a, 1)),
        carry: None,
    });
}

pub fn inc_r16(cpu: &mut Cpu, r: RegisterWide)
    ensures
        *final(cpu) == effect_inc_r16(*old(cpu), r),
        flags_wf(*old(cpu)) ==> flags_wf(*final(cpu)),
{
    let value = cpu.read_register_wide(r);
    cpu.write_register_wide(r, util::add16(value, 1));
}

pub fn dec_r16(cpu: &mut Cpu, r: RegisterWide)
    ensures
        *final(cpu) == effect_dec_r16(*old(cpu), r),
        flags_wf(*old(cpu)) ==> flags_wf(*final(cpu)),
{
    let value = cpu.read_register_wide(r);
    cpu.write_register_wide(r, util::sub16(value, 1));
}

pub fn add_hl_r16(cpu: &mut Cpu, r: RegisterWide)
    ensures
        *final(cpu) == effect_add_hl_r16(*old(cpu), r),
        flags_wf(*old(cpu)) ==> flags_wf(*final(cpu)),
{
    let hl = cpu.read_register_wide(RegisterWide::HL);
    let value = cpu.read_register_wide(r);
    let sum: u32 = hl as u32 + value as u32;
    let result: u16 = (sum % 0x10000) as u16;
    let half = util::half_carried_add16(hl, value);
    cpu.write_register_wide(RegisterWide::HL, result);
    cpu.write_flags(WriteFlags {
        zero: None,
        subtract: Some(false),
        half_carry: Some(half),
        carry: Some(sum > 0xFFFF),
    });
}

pub fn ld_r8_r8(cpu: &mut Cpu, dst_register: Register, src_register: Register)
    ensures
        *final(cpu) == spec_write_r8(
            *old(cpu),
            dst_register,
            spec_read_r8(*old(cpu), src_register),
        ),
        flags_wf(*old(cpu)) ==> flags_wf(*final(cpu)),
{
    let v = cpu.read_register(src_register);
    cpu.write_register(dst_register, v);
}

pub fn rl_r8(cpu: &mut Cpu, r: Register)
    ensures
        *final(cpu) == effect_rl_r8(*old(cpu), r),
        flags_wf(*old(cpu)) ==> flags_wf(*final(cpu)),
{
    let value = cpu.read_register(r);
    let result = if cpu.read_flags().carry {
        (value << 1) | 1
    } else {
        value << 1
    };
    cpu.write_register(r, result);
    cpu.write_flags(WriteFlags {
        zero: Some(result == 0),
        subtract: Some(false),
        half_carry: Some(false),
        carry: Some(value & 0x80 != 0),
    });
}

pub fn rr_r8(cpu: &mut Cpu, r: Register)
    ensures
        *final(cpu) == effect_rr_r8(*old(cpu), r),
        flags_wf(*old(cpu)) ==> flags_wf(*final(cpu)),
{
    let value = cpu.read_register(r);
    let result = if cpu.read_flags().carry {
        (value >> 1) | 0x80
    } else {
        value >> 1
    };
    cpu.write_register(r, result);
    cpu.write_flags(WriteFlags {
        zero: Some(result == 0),
        subtract: Some(false),
        half_carry: Some(false),
        carry: Some(value & 1 != 0),
    });
}

pub fn sla_r8(cpu: &mut Cpu, r: Register)
    ensures
        *final(cpu) == effect_sla_r8(*old(cpu), r),
        flags_wf(*old(cpu)) ==> flags_wf(*final(cpu)),
{
    let value = cpu.read_register(r);
    let result = value << 1;
    cpu.write_register(r, result);
    cpu.write_flags(WriteFlags {
        zero: Some(result == 0),
        subtract: Some(false),
        half_carry: Some(false),
        carry: Some(value & 0x80 != 0),
    });
}

pub fn srl_r8(cpu: &mut Cpu, r: Register)
    ensures
        *final(cpu) == effect_srl_r8(*old(cpu), r),
        flags_wf(*old(cpu)) ==> flags_wf(*final(cpu)),
{
    let value = cpu.read_register(r);
    let result = value >> 1;
    cpu.write_register(r, result);
    cpu.write_flags(WriteFlags {
        zero: Some(result == 0),
        subtract: Some(false),
        half_carry: Some(false),
        carry: Some(value & 1 != 0),
    });
}

pub fn swap_r8(cpu: &mut Cpu, r: Register)
    ensures
        *final(cpu) == effect_swap_r8(*old(cpu), r),
        flags_wf(*old(cpu)) ==> flags_wf(*final(cpu)),
{
    let value = cpu.read_register(r);
    let result = (value << 4) | (value >> 4);
    cpu.write_register(r, result);
    cpu.write_flags(WriteFlags {
        zero: Some(result == 0),
        subtract: Some(false),
        half_carry: Some(false),
        carry: Some(false),
    });
}

pub fn bit_r8(cpu: &mut Cpu, b: u8, r: Register)
    requires
        b < 8,
    ensures
        *final(cpu) == effect_bit(*old(cpu), b, spec_read_r8(*old(cpu), r)),
        flags_wf(*old(cpu)) ==> flags_wf(*final(cpu)),
{
    let tested = cpu.read_register(r) & (1u8 << b);
    cpu.write_flags(WriteFlags {
        zero: Some(tested == 0),
        subtract: Some(false),
        half_carry: Some(true),
        carry: None,
    });
}

pub fn res_r8(cpu: &mut Cpu, b: u8, r: Register)
    requires
        b < 8,
    ensures
        *final(cpu) == effect_res_r8(*old(cpu), b, r),
        flags_wf(*old(cpu)) ==> flags_wf(*final(cpu)),
{
    let value = cpu.read_register(r);
    cpu.write_register(r, value & !(1u8 << b));
}

pub fn bit_indirect_hl(cpu: &mut Cpu, memory: &mut Memory, b: u8)
    requires
        b < 8,
        mem_wf(old(memory)@),
    ensures
        mem_wf(final(memory)@),
        final(memory)@ == old(memory)@,
        *final(cpu) == effect_bit_ind_hl(*old(cpu), old(memory)@, b),
        flags_wf(*old(cpu)) ==> flags_wf(*final(cpu)),
{
    let hl = cpu.read_register_wide(RegisterWide::HL);
    let value = memory.read(Address(hl));
    let tested = value & (1u8 << b);
    cpu.write_flags(WriteFlags {
        zero: Some(tested == 0),
        subtract: Some(false),
        half_carry: Some(true),
        carry: None,
    });
}

pub fn res_indirect_hl(cpu: &mut Cpu, memory: &mut Memory, b: u8)
    requires
        b < 8,
        mem_wf(old(memory)@),
    ensures
        mem_wf(final(memory)@),
        (*final(cpu), final(memory)@) == effect_res_ind_hl(*old(cpu), old(memory)@, b),
        flags_wf(*old(cpu)) ==> flags_wf(*final(cpu)),
{
    let hl = cpu.read_register_wide(RegisterWide::HL);
    let value = memory.read(Address(hl));
    memory.write(Address(hl), value & !(1u8 << b));
}

pub fn set_indirect_hl(cpu: &mut Cpu, memory: &mut Memory, b: u8)
    requires
        b < 8,
        mem_wf(old(memory)@),
    ensures
        mem_wf(final(memory)@),
        (*final(cpu), final(memory)@) == effect_set_ind_hl(*old(cpu), old(memory)@, b),
        flags_wf(*old(cpu)) ==> flags_wf(*final(cpu)),
{
    let hl = cpu.read_register_wide(RegisterWide::HL);
    let value = memory.read(Address(hl));
    memory.write(Address(hl), value | (1u8 << b));
}

pub fn ld_r8_n8(cpu: &mut Cpu, memory: &mut Memory, r: Register)
    requires
        mem_wf(old(memory)@),
    ensures
        mem_wf(final(memory)@),
        final(memory)@ == old(memory)@,
        *final(cpu) == effect_ld_r8_n8(*old(cpu), old(memory)@, r),
        flags_wf(*old(cpu)) ==> flags_wf(*final(cpu)),
{
    let pc = cpu.read_register_wide(RegisterWide::PC);
    let imm = memory.read(Address(util::sub16(pc, 1)));
    cpu.write_register(r, imm);
}

pub fn ld_r16_n16(cpu: &mut Cpu, memory: &mut Memory, r: RegisterWide)
    requires
        mem_wf(old(memory)@),
    ensures
        mem_wf(final(memory)@),
        final(memory)@ == old(memory)@,
        *final(cpu) == effect_ld_r16_n16(*old(cpu), old(memory)@, r),
        flags_wf(*old(cpu)) ==> flags_wf(*final(cpu)),
{
    let pc = cpu.read_register_wide(RegisterWide::PC);
    let msb = memory.read(Address(util::sub16(pc, 1)));
    let lsb = memory.read(Address(util::sub16(pc, 2)));
    let value = util::u8_to_u16(msb, lsb);
    cpu.write_register_wide(r, value);
}

pub fn ld_r8_indirect_r16(
    cpu: &mut Cpu,
    memory: &mut Memory,
    dst_register: Register,
    src_register: RegisterWide,
    mode: IndirectAddressingMode,
)
    requires
        mem_wf(old(memory)@),
    ensures
        mem_wf(final(memory)@),
        final(memory)@ == old(memory)@,
        *final(cpu) == effect_ld_r8_ind_r16(
            *old(cpu),
            old(memory)@,
            dst_register,
            src_register,
            mode,
        ),
        flags_wf(*old(cpu)) ==> flags_wf(*final(cpu)),
{
    let src_address = cpu.read_register_wide(src_register);
    let value = memory.read(Address(src_address));
    cpu.write_register(dst_register, value);
    let register_value = cpu.read_register_wide(src_register);
    match mode {
        IndirectAddressingMode::Retain => {},
        IndirectAddressingMode::Increment => cpu.write_register_wide(
            src_register,
            util::add16(register_value, 1),
        ),
        IndirectAddressingMode::Decrement => cpu.write_register_wide(
            src_register,
            util::sub16(register_value, 1),
        ),
    };
}

pub fn ld_indirect_r16_r8(
    cpu: &mut Cpu,
    memory: &mut Memory,
    dst_register: RegisterWide,
    src_register: Register,
    mode: IndirectAddressingMode,
)
    requires
        mem_wf(old(memory)@),
    ensures
        mem_wf(final(memory)@),
        (*final(cpu), final(memory)@) == effect_ld_ind_r16_r8(
            *old(cpu),
            old(memory)@,
            dst_register,
            src_register,
            mode,
        ),
        flags_wf(*old(cpu)) ==> flags_wf(*final(cpu)),
{
    let dst_value = cpu.read_register_wide(dst_register);
    let src_value = cpu.read_register(src_register);
    memory.write(Address(dst_value), src_value);
    let new_dst_register = match mode {
        IndirectAddressingMode::Retain => dst_value,
        IndirectAddressingMode::Increment => util::add16(dst_value, 1),
        IndirectAddressingMode::Decrement => util::sub16(dst_value, 1),
    };
    cpu.write_register_wide(dst_register, new_dst_register);
}

fn ld_indirect_hl_n8(cpu: &mut Cpu, memory: &mut Memory)
    requires
        mem_wf(old(memory)@),
    ensures
        mem_wf(final(memory)@),
        (*final(cpu), final(memory)@) == effect_ld_ind_hl_n8(*old(cpu), old(memory)@),
        flags_wf(*old(cpu)) ==> flags_wf(*final(cpu)),
{
    let pc = cpu.read_register_wide(RegisterWide::PC);
    let imm = memory.read(Address(util::sub16(pc, 1)));
    let hl = cpu.read_register_wide(RegisterWide::HL);
    memory.write(Address(hl), imm);
}

fn inc_indirect_hl(cpu: &mut Cpu, memory: &mut Memory)
    requires
        mem_wf(old(memory)@),
    ensures
        mem_wf(final(memory)@),
        (*final(cpu), final(memory)@) == effect_inc_ind_hl(*old(cpu), old(memory)@),
        flags_wf(*old(cpu)) ==> flags_wf(*final(cpu)),
{
    let hl = cpu.read_register_wide(RegisterWide::HL);
    let value = memory.read(Address(hl));
    let result = util::add8(value, 1);
    memory.write(Address(hl), result);
    proof {
        util::lemma_low_nibble_one();
    }
    cpu.write_flags(WriteFlags {
        zero: Some(result == 0),
        subtract: Some(false),
        half_carry: Some(util::half_carried_add8(value, 1)),
        carry: None,
    });
}

fn dec_indirect_hl(cpu: &mut Cpu, memory: &mut Memory)
    requires
        mem_wf(old(memory)@),
    ensures
        mem_wf(final(memory)@),
        (*final(cpu), final(memory)@) == effect_dec_ind_hl(*old(cpu), old(memory)@),
        flags_wf(*old(cpu)) ==> flags_wf(*final(cpu)),
{
    let hl = cpu.read_register_wide(RegisterWide::HL);
    let value = memory.read(Address(hl));
    let result = util::sub8(value, 1);
    memory.write(Address(hl), result);
    proof {
        util::lemma_low_nibble_one();
    }
    cpu.write_flags(WriteFlags {
        zero: Some(result == 0),
        subtract: Some(true),
        half_carry: Some(util::half_carried_sub8(value, 1)),
        carry: None,
    });
}

pub fn jump(cpu: &mut Cpu, memory: &mut Memory)
    requires
        mem_wf(old(memory)@),
    ensures
        mem_wf(final(memory)@),
        final(memory)@ == old(memory)@,
        *final(cpu) == effect_jp(*old(cpu), old(memory)@),
        flags_wf(*old(cpu)) ==> flags_wf(*final(cpu)),
{
    let pc = cpu.read_register_wide(RegisterWide::PC);
    let msb = memory.read(Address(util::sub16(pc, 1)));
    let lsb = memory.read(Address(util::sub16(pc, 2)));
    let new_pc = util::u8_to_u16(msb, lsb);
    cpu.write_register_wide(RegisterWide::PC, new_pc);
}

pub fn jump_relative(cpu: &mut Cpu, memory: &mut Memory)
    requires
        mem_wf(old(memory)@),
    ensures
        mem_wf(final(memory)@),
        final(memory)@ == old(memory)@,
        *final(cpu) == effect_jr(*old(cpu), old(memory)@),
        flags_wf(*old(cpu)) ==> flags_wf(*final(cpu)),
{
    let pc = cpu.read_register_wide(RegisterWide::PC);
    let imm = memory.read(Address(util::sub16(pc, 1)));
    cpu.write_register_wide(RegisterWide::PC, util::add_signed16(pc, imm));
}

pub fn call_a16(cpu: &mut Cpu, memory: &mut Memory)
    requires
        mem_wf(old(memory)@),
    ensures
        mem_wf(final(memory)@),
        (*final(cpu), final(memory)@) == effect_call(*old(cpu), old(memory)@),
        flags_wf(*old(cpu)) ==> flags_wf(*final(cpu)),
{
    let pc = cpu.read_register_wide(RegisterWide::PC);
    let msb = memory.read(Address(util::sub16(pc, 1)));
    let lsb = memory.read(Address(util::sub16(pc, 2)));
    let address = util::u8_to_u16(msb, lsb);
    let sp = cpu.read_register_wide(RegisterWide::SP);
    let new_sp = util::sub16(sp, 2);
    let (pc_msb, pc_lsb) = util::u16_to_u8(pc);
    memory.write(Address(new_sp), pc_lsb);
    memory.write(Address(util::add16(new_sp, 1)), pc_msb);
    cpu.write_register_wide(RegisterWide::SP, new_sp);
    cpu.write_register_wide(RegisterWide::PC, address);
}

pub fn rst(cpu: &mut Cpu, memory: &mut Memory, target: u8)
    requires
        mem_wf(old(memory)@),
    ensures
        mem_wf(final(memory)@),
        (*final(cpu), final(memory)@) == effect_rst(*old(cpu), old(memory)@, target),
        flags_wf(*old(cpu)) ==> flags_wf(*final(cpu)),
{
    let pc = cpu.read_register_wide(RegisterWide::PC);
    let (msb, lsb) = util::u16_to_u8(pc);
    let sp = cpu.read_register_wide(RegisterWide::SP);
    memory.write(Address(util::sub16(sp, 1)), msb);
    memory.write(Address(util::sub16(sp, 2)), lsb);
    cpu.write_register_wide(RegisterWide::SP, util::sub16(sp, 2));
    cpu.write_register_wide(RegisterWide::PC, target as u16);
}

pub fn push(cpu: &mut Cpu, memory: &mut Memory, r: RegisterWide)
    requires
        mem_wf(old(memory)@),
    ensures
        mem_wf(final(memory)@),
        (*final(cpu), final(memory)@) == effect_push(*old(cpu), old(memory)@, r),
        flags_wf(*old(cpu)) ==> flags_wf(*final(cpu)),
{
    let value = cpu.read_register_wide(r);
    let (msb, lsb) = util::u16_to_u8(value);
    let sp = cpu.read_register_wide(RegisterWide::SP);
    memory.write(Address(util::sub16(sp, 1)), msb);
    memory.write(Address(util::sub16(sp, 2)), lsb);
    cpu.write_register_wide(RegisterWide::SP, util::sub16(sp, 2));
}

pub fn pop(cpu: &mut Cpu, memory: &mut Memory, r: RegisterWide)
    requires
        mem_wf(old(memory)@),
    ensures
        mem_wf(final(memory)@),
        final(memory)@ == old(memory)@,
        *final(cpu) == effect_pop(*old(cpu), old(memory)@, r),
        flags_wf(*old(cpu)) ==> flags_wf(*final(cpu)),
{
    let sp = cpu.read_register_wide(RegisterWide::SP);
    let lsb = memory.read(Address(sp));
    let msb = memory.read(Address(util::add16(sp, 1)));
    cpu.write_register_wide(RegisterWide::SP, util::add16(sp, 2));
    let value = util::u8_to_u16(msb, lsb);
    cpu.write_register_wide(r, value);
}

fn ldh_a8_a(cpu: &mut Cpu, memory: &mut Memory)
    requires
        mem_wf(old(memory)@),
    ensures
        mem_wf(final(memory)@),
        (*final(cpu), final(memory)@) == effect_ldh_a8_a(*old(cpu), old(memory)@),
        flags_wf(*old(cpu)) ==> flags_wf(*final(cpu)),
{
    let pc = cpu.read_register_wide(RegisterWide::PC);
    let imm = memory.read(Address(util::sub16(pc, 1)));
    let address = util::u8_to_u16(0xFF, imm);
    let a = cpu.read_register(Register::A);
    memory.write(Address(address), a);
}

fn ldh_a_a8(cpu: &mut Cpu, memory: &mut Memory)
    requires
        mem_wf(old(memory)@),
    ensures
        mem_wf(final(memory)@),
        final(memory)@ == old(memory)@,
        *final(cpu) == effect_ldh_a_a8(*old(cpu), old(memory)@),
        flags_wf(*old(cpu)) ==> flags_wf(*final(cpu)),
{
    let pc = cpu.read_register_wide(RegisterWide::PC);
    let imm = memory.read(Address(util::sub16(pc, 1)));
    let address = util::u8_to_u16(0xFF, imm);
    let value = memory.read(Address(address));
    cpu.write_register(Register::A, value);
}

fn ld_indirect_c_a(cpu: &mut Cpu, memory: &mut Memory)
    requires
        mem_wf(old(memory)@),
    ensures
        mem_wf(final(memory)@),
        (*final(cpu), final(memory)@) == effect_ld_ind_c_a(*old(cpu), old(memory)@),
        flags_wf(*old(cpu)) ==> flags_wf(*final(cpu)),
{
    let a = cpu.read_register(Register::A);
    let c = cpu.read_register(Register::C);
    let address = util::u8_to_u16(0xFF, c);
    memory.write(Address(address), a);
}

fn ld_a16_a(cpu: &mut Cpu, memory: &mut Memory)
    requires
        mem_wf(old(memory)@),
    ensures
        mem_wf(final(memory)@),
        (*final(cpu), final(memory)@) == effect_ld_a16_a(*old(cpu), old(memory)@),
        flags_wf(*old(cpu)) ==> flags_wf(*final(cpu)),
{
    let pc = cpu.read_register_wide(RegisterWide::PC);
    let msb = memory.read(Address(util::sub16(pc, 1)));
    let lsb = memory.read(Address(util::sub16(pc, 2)));
    let address = util::u8_to_u16(msb, lsb);
    let a = cpu.read_register(Register::A);
    memory.write(Address(address), a);
}

fn ld_a_a16(cpu: &mut Cpu, memory: &mut Memory)
    requires
        mem_wf(old(memory)@),
    ensures
        mem_wf(final(memory)@),
        final(memory)@ == old(memory)@,
        *final(cpu) == effect_ld_a_a16(*old(cpu), old(memory)@),
        flags_wf(*old(cpu)) ==> flags_wf(*final(cpu)),
{
    let pc = cpu.read_register_wide(RegisterWide::PC);
    let msb = memory.read(Address(util::sub16(pc, 1)));
    let lsb = memory.read(Address(util::sub16(pc, 2)));
    let address = util::u8_to_u16(msb, lsb);
    let value = memory.read(Address(address));
    cpu.write_register(Register::A, value);
}

fn ld_a16_sp(cpu: &mut Cpu, memory: &mut Memory)
    requires
        mem_wf(old(memory)@),
    ensures
        mem_wf(final(memory)@),
        (*final(cpu), final(memory)@) == effect_ld_a16_sp(*old(cpu), old(memory)@),
        flags_wf(*old(cpu)) ==> flags_wf(*final(cpu)),
{
    let pc = cpu.read_register_wide(RegisterWide::PC);
    let msb = memory.read(Address(util::sub16(pc, 1)));
    let lsb = memory.read(Address(util::sub16(pc, 2)));
    let address = util::u8_to_u16(msb, lsb);
    let sp = cpu.read_register_wide(RegisterWide::SP);
    let (sp_msb, sp_lsb) = util::u16_to_u8(sp);
    memory.write(Address(address), sp_lsb);
    memory.write(Address(util::add16(address, 1)), sp_msb);
}

/// Computes SP + e8 together with its flags, shared by ADD SP, e8 and
/// LD HL, SP + e8: the flags come from the unsigned low byte alone.
fn sp_plus_e8(cpu: &mut Cpu, memory: &mut Memory) -> (r: u16)
    requires
        mem_wf(old(memory)@),
    ensures
        mem_wf(final(memory)@),
        final(memory)@ == old(memory)@,
        r == wrap_add_signed16(old(cpu).sp, operand(*old(cpu), old(memory)@, 1)),
        *final(cpu) == flags_after(
            *old(cpu),
            sp_e8_flags(old(cpu).sp, operand(*old(cpu), old(memory)@, 1)),
        ),
        flags_wf(*old(cpu)) ==> flags_wf(*final(cpu)),
{
    let pc = cpu.read_register_wide(RegisterWide::PC);
    let imm = memory.read(Address(util::sub16(pc, 1)));
    let sp = cpu.read_register_wide(RegisterWide::SP);
    let low: u8 = (sp % 0x100) as u8;
    let half = (low & 0xF) as u16 + (imm & 0xF) as u16 > 0xF;
    let carried = low as u16 + imm as u16 > 0xFF;
    let result = util::add_signed16(sp, imm);
    cpu.write_flags(WriteFlags {
        zero: Some(false),
        subtract: Some(false),
        half_carry: Some(half),
        carry: Some(carried),
    });
    result
}

fn add_sp_e8(cpu: &mut Cpu, memory: &mut Memory)
    requires
        mem_wf(old(memory)@),
    ensures
        mem_wf(final(memory)@),
        final(memory)@ == old(memory)@,
        *final(cpu) == effect_add_sp_e8(*old(cpu), old(memory)@),
        flags_wf(*old(cpu)) ==> flags_wf(*final(cpu)),
{
    let result = sp_plus_e8(cpu, memory);
    cpu.write_register_wide(RegisterWide::SP, result);
}

fn ld_hl_sp_e8(cpu: &mut Cpu, memory: &mut Memory)
    requires
        mem_wf(old(memory)@),
    ensures
        mem_wf(final(memory)@),
        final(memory)@ == old(memory)@,
        *final(cpu) == effect_ld_hl_sp_e8(*old(cpu), old(memory)@),
        flags_wf(*old(cpu)) ==> flags_wf(*final(cpu)),
{
    let result = sp_plus_e8(cpu, memory);
    cpu.write_register_wide(RegisterWide::HL, result);
}

/// Executors for the data-movement families.
#[verifier::rlimit(100)]
fn execute_data(kind: OpKind, cpu: &mut Cpu, memory: &mut Memory)
    requires
        kind.wf(),
        mem_wf(old(memory)@),
        (kind is LdR8R8 || kind is LdR8N8 || kind is LdR16N16 || kind is LdR8IndR16
            || kind is LdIndR16R8 || kind is LdIndHlN8 || kind is LdhA8A || kind is LdhAA8
            || kind is LdIndCA || kind is LdA16A || kind is LdAA16 || kind is LdA16Sp
            || kind is LdSpHl || kind is Push || kind is Pop),
    ensures
        mem_wf(final(memory)@),
        (*final(cpu), final(memory)@) == exec_effect(kind, *old(cpu), old(memory)@),
        flags_wf(*old(cpu)) ==> flags_wf(*final(cpu)),
{
    match kind {
        OpKind::LdR8R8(dst, src) => ld_r8_r8(cpu, dst, src),
        OpKind::LdR8N8(r) => ld_r8_n8(cpu, memory, r),
        OpKind::LdR16N16(r) => ld_r16_n16(cpu, memory, r),
        OpKind::LdR8IndR16(dst, src, mode) => ld_r8_indirect_r16(cpu, memory, dst, src, mode),
        OpKind::LdIndR16R8(dst, src, mode) => ld_indirect_r16_r8(cpu, memory, dst, src, mode),
        OpKind::LdIndHlN8 => ld_indirect_hl_n8(cpu, memory),
        OpKind::LdhA8A => ldh_a8_a(cpu, memory),
        OpKind::LdhAA8 => ldh_a_a8(cpu, memory),
        OpKind::LdIndCA => ld_indirect_c_a(cpu, memory),
        OpKind::LdA16A => ld_a16_a(cpu, memory),
        OpKind::LdAA16 => ld_a_a16(cpu, memory),
        OpKind::LdA16Sp => ld_a16_sp(cpu, memory),
        OpKind::LdSpHl => {
            let hl = cpu.read_register_wide(RegisterWide::HL);
            cpu.write_register_wide(RegisterWide::SP, hl);
        },
        OpKind::Push(r) => push(cpu, memory, r),
        OpKind::Pop(r) => pop(cpu, memory, r),
        _ => {},
    }
}

/// Executors for the arithmetic families.
fn execute_arith(kind: OpKind, cpu: &mut Cpu, memory: &mut Memory)
    requires
        kind.wf(),
        mem_wf(old(memory)@),
        (kind is IncIndHl || kind is DecIndHl || kind is IncR8 || kind is DecR8
            || kind is IncR16 || kind is DecR16 || kind is AddHlR16 || kind is AluR8
            || kind is AluIndHl || kind is AluN8 || kind is AddSpE8 || kind is LdHlSpE8
            || kind is Cpl),
    ensures
        mem_wf(final(memory)@),
        (*final(cpu), final(memory)@) == exec_effect(kind, *old(cpu), old(memory)@),
        flags_wf(*old(cpu)) ==> flags_wf(*final(cpu)),
{
    match kind {
        OpKind::IncIndHl => inc_indirect_hl(cpu, memory),
        OpKind::DecIndHl => dec_indirect_hl(cpu, memory),
        OpKind::IncR8(r) => inc_r8(cpu, r),
        OpKind::DecR8(r) => dec_r8(cpu, r),
        OpKind::IncR16(r) => inc_r16(cpu, r),
        OpKind::DecR16(r) => dec_r16(cpu, r),
        OpKind::AddHlR16(r) => add_hl_r16(cpu, r),
        OpKind::AluR8(op, r) => match op {
            AluOp::Add => add_r8(cpu, r),
            AluOp::Adc => adc_r8(cpu, r),
            AluOp::Sub => sub_r8(cpu, r),
            AluOp::Sbc => sbc_r8(cpu, r),
            AluOp::And => and_r8(cpu, r),
            AluOp::Xor => xor_r8(cpu, r),
            AluOp::Or => or_r8(cpu, r),
            AluOp::Cp => cp_r8(cpu, r),
        },
        OpKind::AluIndHl(op) => {
            let hl = cpu.read_register_wide(RegisterWide::HL);
            let b = memory.read(Address(hl));
            alu_a(cpu, op, b);
        },
        OpKind::AluN8(op) => {
            let pc = cpu.read_register_wide(RegisterWide::PC);
            let b = memory.read(Address(util::sub16(pc, 1)));
            alu_a(cpu, op, b);
        },
        OpKind::AddSpE8 => add_sp_e8(cpu, memory),
        OpKind::LdHlSpE8 => ld_hl_sp_e8(cpu, memory),
        OpKind::Cpl => {
            let a = cpu.read_register(Register::A);
            cpu.write_register(Register::A, !a);
            cpu.write_flags(WriteFlags {
                zero: None,
                subtract: Some(true),
                half_carry: Some(true),
                carry: None,
            });
        },
        _ => {},
    }
}

/// Executors for the control-flow and interrupt families.
fn execute_control(kind: OpKind, cpu: &mut Cpu, memory: &mut Memory)
    requires
        kind.wf(),
        mem_wf(old(memory)@),
        (kind is Nop || kind is Stop || kind is Prefix || kind is Jr || kind is JrCond
            || kind is Jp || kind is JpCond || kind is JpHl || kind is Call
            || kind is CallCond || kind is Ret || kind is RetCond || kind is Reti
            || kind is Rst || kind is Di || kind is Ei),
    ensures
        mem_wf(final(memory)@),
        (*final(cpu), final(memory)@) == exec_effect(kind, *old(cpu), old(memory)@),
        flags_wf(*old(cpu)) ==> flags_wf(*final(cpu)),
{
    match kind {
        OpKind::Nop => {},
        OpKind::Stop => {},
        OpKind::Prefix => {},
        OpKind::Jr => jump_relative(cpu, memory),
        OpKind::JrCond(cond) => {
            if condition(cpu, cond) {
                jump_relative(cpu, memory);
            }
        },
        OpKind::Jp => jump(cpu, memory),
        OpKind::JpCond(cond) => {
            if condition(cpu, cond) {
                jump(cpu, memory);
            }
        },
        OpKind::JpHl => {
            let hl = cpu.read_register_wide(RegisterWide::HL);
            cpu.write_register_wide(RegisterWide::PC, hl);
        },
        OpKind::Call => call_a16(cpu, memory),
        OpKind::CallCond(cond) => {
            if condition(cpu, cond) {
                call_a16(cpu, memory);
            }
        },
        OpKind::Ret => pop(cpu, memory, RegisterWide::PC),
        OpKind::RetCond(cond) => {
            if condition(cpu, cond) {
                pop(cpu, memory, RegisterWide::PC);
            }
        },
        OpKind::Reti => {
            // RETI restores IME immediately, with none of EI's delay.
            cpu.ime = true;
            cpu.steps_since_request_ime_enable = None;
            pop(cpu, memory, RegisterWide::PC);
        },
        OpKind::Rst(target) => rst(cpu, memory, target),
        OpKind::Di => cpu.request_ime_disable(),
        OpKind::Ei => cpu.request_ime_enable(),
        _ => {},
    }
}

/// Executors for the rotate, shift and bit families.
#[verifier::rlimit(100)]
fn execute_bits(kind: OpKind, cpu: &mut Cpu, memory: &mut Memory)
    requires
        kind.wf(),
        mem_wf(old(memory)@),
        (kind is Rlca || kind is Rla || kind is Rra || kind is RlR8 || kind is RrR8
            || kind is SlaR8 || kind is SrlR8 || kind is SwapR8 || kind is BitR8
            || kind is BitIndHl || kind is ResR8 || kind is ResIndHl || kind is SetIndHl),
    ensures
        mem_wf(final(memory)@),
        (*final(cpu), final(memory)@) == exec_effect(kind, *old(cpu), old(memory)@),
        flags_wf(*old(cpu)) ==> flags_wf(*final(cpu)),
{
    match kind {
        OpKind::Rlca => {
            let value = cpu.read_register(Register::A);
            cpu.write_register(Register::A, (value << 1) | (value >> 7));
            cpu.write_flags(WriteFlags {
                zero: Some(false),
                subtract: Some(false),
                half_carry: Some(false),
                carry: Some(value & 0x80 != 0),
            });
        },
        OpKind::Rla => {
            let value = cpu.read_register(Register::A);
            let result = if cpu.read_flags().carry {
                (value << 1) | 1
            } else {
                value << 1
            };
            cpu.write_register(Register::A, result);
            cpu.write_flags(WriteFlags {
                zero: Some(false),
                subtract: Some(false),
                half_carry: Some(false),
                carry: Some(value & 0x80 != 0),
            });
        },
        OpKind::Rra => {
            let value = cpu.read_register(Register::A);
            let result = if cpu.read_flags().carry {
                (value >> 1) | 0x80
            } else {
                value >> 1
            };
            cpu.write_register(Register::A, result);
            cpu.write_flags(WriteFlags {
                zero: Some(false),
                subtract: Some(false),
                half_carry: Some(false),
                carry: Some(value & 1 != 0),
            });
        },
        OpKind::RlR8(r) => rl_r8(cpu, r),
        OpKind::RrR8(r) => rr_r8(cpu, r),
        OpKind::SlaR8(r) => sla_r8(cpu, r),
        OpKind::SrlR8(r) => srl_r8(cpu, r),
        OpKind::SwapR8(r) => swap_r8(cpu, r),
        OpKind::BitR8(b, r) => bit_r8(cpu, b, r),
        OpKind::BitIndHl(b) => bit_indirect_hl(cpu, memory, b),
        OpKind::ResR8(b, r) => res_r8(cpu, b, r),
        OpKind::ResIndHl(b) => res_indirect_hl(cpu, memory, b),
        OpKind::SetIndHl(b) => set_indirect_hl(cpu, memory, b),
        _ => {},
    }
}

impl Opcode {
    /// Runs this opcode's executor against the CPU and the bus. The PC has
    /// already been advanced past the instruction. An opcode without an
    /// executor changes nothing.
    pub fn execute(&self, cpu: &mut Cpu, memory: &mut Memory)
        requires
            self.wf(),
            mem_wf(old(memory)@),
        ensures
            mem_wf(final(memory)@),
            (match self.kind {
                None => *final(cpu) == *old(cpu) && final(memory)@ == old(memory)@,
                Some(k) => (*final(cpu), final(memory)@) == exec_effect(k, *old(cpu), old(memory)@),
            }),
            flags_wf(*old(cpu)) ==> flags_wf(*final(cpu)),
    {
        let kind = match self.kind {
            Some(k) => k,
            None => {
                return ;
            },
        };
        match kind {
            OpKind::LdR8R8(..) | OpKind::LdR8N8(..) | OpKind::LdR16N16(..)
            | OpKind::LdR8IndR16(..) | OpKind::LdIndR16R8(..) | OpKind::LdIndHlN8
            | OpKind::LdhA8A | OpKind::LdhAA8 | OpKind::LdIndCA | OpKind::LdA16A
            | OpKind::LdAA16 | OpKind::LdA16Sp | OpKind::LdSpHl | OpKind::Push(..)
            | OpKind::Pop(..) => execute_data(kind, cpu, memory),
            OpKind::IncIndHl | OpKind::DecIndHl | OpKind::IncR8(..) | OpKind::DecR8(..)
            | OpKind::IncR16(..) | OpKind::DecR16(..) | OpKind::AddHlR16(..)
            | OpKind::AluR8(..) | OpKind::AluIndHl(..) | OpKind::AluN8(..)
            | OpKind::AddSpE8 | OpKind::LdHlSpE8 | OpKind::Cpl => execute_arith(
                kind,
                cpu,
                memory,
            ),
            OpKind::Nop | OpKind::Stop | OpKind::Prefix | OpKind::Jr | OpKind::JrCond(..)
            | OpKind::Jp | OpKind::JpCond(..) | OpKind::JpHl | OpKind::Call
            | OpKind::CallCond(..) | OpKind::Ret | OpKind::RetCond(..) | OpKind::Reti
            | OpKind::Rst(..) | OpKind::Di | OpKind::Ei => execute_control(kind, cpu, memory),
            OpKind::Rlca | OpKind::Rla | OpKind::Rra | OpKind::RlR8(..) | OpKind::RrR8(..)
            | OpKind::SlaR8(..) | OpKind::SrlR8(..) | OpKind::SwapR8(..) | OpKind::BitR8(..)
            | OpKind::BitIndHl(..) | OpKind::ResR8(..) | OpKind::ResIndHl(..)
            | OpKind::SetIndHl(..) => execute_bits(kind, cpu, memory),
        }
    }
}

// ---------------------------------------------------------------------------
// Decode tables
// ---------------------------------------------------------------------------

pub open spec fn spec_decode_row0(byte: u8) -> Option<Opcode> {
    match byte {
    0x00 => Some(Opcode { size_bytes: 1, kind: Some(OpKind::Nop) }),
    0x01 => Some(Opcode { size_bytes: 3, kind: Some(OpKind::LdR16N16(RegisterWide::BC)) }),
    0x02 => Some(Opcode { size_bytes: 1, kind: Some(OpKind::LdIndR16R8(RegisterWide::BC, Register::A, IndirectAddressingMode::Retain)) }),
    0x03 => Some(Opcode { size_bytes: 1, kind: Some(OpKind::IncR16(RegisterWide::BC)) }),
    0x04 => Some(Opcode { size_bytes: 1, kind: Some(OpKind::IncR8(Register::B)) }),
    0x05 => Some(Opcode { size_bytes: 1, kind: Some(OpKind::DecR8(Register::B)) }),
    0x06 => Some(Opcode { size_bytes: 2, kind: Some(OpKind::LdR8N8(Register::B)) }),
    0x07 => Some(Opcode { size_bytes: 1, kind: Some(OpKind::Rlca) }),
    0x08 => Some(Opcode { size_bytes: 3, kind: Some(OpKind::LdA16Sp) }),
    0x09 => Some(Opcode { size_bytes: 1, kind: Some(OpKind::AddHlR16(RegisterWide::BC)) }),
    0x0a => Some(Opcode { size_bytes: 1, kind: Some(OpKind::LdR8IndR16(Register::A, RegisterWide::BC, IndirectAddressingMode::Retain)) }),
    0x0b => Some(Opcode { size_bytes: 1, kind: Some(OpKind::DecR16(RegisterWide::BC)) }),
    0x0c => Some(Opcode { size_bytes: 1, kind: Some(OpKind::IncR8(Register::C)) }),
    0x0d => Some(Opcode { size_bytes: 1, kind: Some(OpKind::DecR8(Register::C)) }),
    0x0e => Some(Opcode { size_bytes: 2, kind: Some(OpKind::LdR8N8(Register::C)) }),
    0x0f => Some(Opcode { size_bytes: 1, kind: None }),
        _ => None,
    }
}

pub open spec fn spec_decode_row1(byte: u8) -> Option<Opcode> {
    match byte {
    0x10 => Some(Opcode { size_bytes: 2, kind: Some(OpKind::Stop) }),
    0x11 => Some(Opcode { size_bytes: 3, kind: Some(OpKind::LdR16N16(RegisterWide::DE)) }),
    0x12 => Some(Opcode { size_bytes: 1, kind: Some(OpKind::LdIndR16R8(RegisterWide::DE, Register::A, IndirectAddressingMode::Retain)) }),
    0x13 => Some(Opcode { size_bytes: 1, kind: Some(OpKind::IncR16(RegisterWide::DE)) }),
    0x14 => Some(Opcode { size_bytes: 1, kind: Some(OpKind::IncR8(Register::D)) }),
    0x15 => Some(Opcode { size_bytes: 1, kind: Some(OpKind::DecR8(Register::D)) }),
    0x16 => Some(Opcode { size_bytes: 2, kind: Some(OpKind::LdR8N8(Register::D)) }),
    0x17 => Some(Opcode { size_bytes: 1, kind: Some(OpKind::Rla) }),
    0x18 => Some(Opcode { size_bytes: 2, kind: Some(OpKind::Jr) }),
    0x19 => Some(Opcode { size_bytes: 1, kind: Some(OpKind::AddHlR16(RegisterWide::DE)) }),
    0x1a => Some(Opcode { size_bytes: 1, kind: Some(OpKind::LdR8IndR16(Register::A, RegisterWide::DE, IndirectAddressingMode::Retain)) }),
    0x1b => Some(Opcode { size_bytes: 1, kind: Some(OpKind::DecR16(RegisterWide::DE)) }),
    0x1c => Some(Opcode { size_bytes: 1, kind: Some(OpKind::IncR8(Register::E)) }),
    0x1d => Some(Opcode { size_bytes: 1, kind: Some(OpKind::DecR8(Register::E)) }),
    0x1e => Some(Opcode { size_bytes: 2, kind: Some(OpKind::LdR8N8(Register::E)) }),
    0x1f => Some(Opcode { size_bytes: 1, kind: Some(OpKind::Rra) }),
        _ => None,
    }
}

pub open spec fn spec_decode_row2(byte: u8) -> Option<Opcode> {
    match byte {
    0x20 => Some(Opcode { size_bytes: 2, kind: Some(OpKind::JrCond(Cond::NotZero)) }),
    0x21 => Some(Opcode { size_bytes: 3, kind: Some(OpKind::LdR16N16(RegisterWide::HL)) }),
    0x22 => Some(Opcode { size_bytes: 1, kind: Some(OpKind::LdIndR16R8(RegisterWide::HL, Register::A, IndirectAddressingMode::Increment)) }),
    0x23 => Some(Opcode { size_bytes: 1, kind: Some(OpKind::IncR16(RegisterWide::HL)) }),
    0x24 => Some(Opcode { size_bytes: 1, kind: Some(OpKind::IncR8(Register::H)) }),
    0x25 => Some(Opcode { size_bytes: 1, kind: Some(OpKind::DecR8(Register::H)) }),
    0x26 => Some(Opcode { size_bytes: 2, kind: Some(OpKind::LdR8N8(Register::H)) }),
    0x27 => Some(Opcode { size_bytes: 1, kind: None }),
    0x28 => Some(Opcode { size_bytes: 2, kind: Some(OpKind::JrCond(Cond::Zero)) }),
    0x29 => Some(Opcode { size_bytes: 1, kind: Some(OpKind::AddHlR16(RegisterWide::HL)) }),
    0x2a => Some(Opcode { size_bytes: 1, kind: Some(OpKind::LdR8IndR16(Register::A, RegisterWide::HL, IndirectAddressingMode::Increment)) }),
    0x2b => Some(Opcode { size_bytes: 1, kind: Some(OpKind::DecR16(RegisterWide::HL)) }),
    0x2c => Some(Opcode { size_bytes: 1, kind: Some(OpKind::IncR8(Register::L)) }),
    0x2d => Some(Opcode { size_bytes: 1, kind: Some(OpKind::DecR8(Register::L)) }),
    0x2e => Some(Opcode { size_bytes: 2, kind: Some(OpKind::LdR8N8(Register::L)) }),
    0x2f => Some(Opcode { size_bytes: 1, kind: Some(OpKind::Cpl) }),
        _ => None,
    }
}

pub open spec fn spec_decode_row3(byte: u8) -> Option<Opcode> {
    match byte {
    0x30 => Some(Opcode { size_bytes: 2, kind: Some(OpKind::JrCond(Cond::NotCarry)) }),
    0x31 => Some(Opcode { size_bytes: 3, kind: Some(OpKind::LdR16N16(RegisterWide::SP)) }),
    0x32 => Some(Opcode { size_bytes: 1, kind: Some(OpKind::LdIndR16R8(RegisterWide::HL, Register::A, IndirectAddressingMode::Decrement)) }),
    0x33 => Some(Opcode { size_bytes: 1, kind: Some(OpKind::IncR16(RegisterWide::SP)) }),
    0x34 => Some(Opcode { size_bytes: 1, kind: Some(OpKind::IncIndHl) }),
    0x35 => Some(Opcode { size_bytes: 1, kind: Some(OpKind::DecIndHl) }),
    0x36 => Some(Opcode { size_bytes: 2, kind: Some(OpKind::LdIndHlN8) }),
    0x37 => Some(Opcode { size_bytes: 1, kind: None }),
    0x38 => Some(Opcode { size_bytes: 2, kind: Some(OpKind::JrCond(Cond::Carry)) }),
    0x39 => Some(Opcode { size_bytes: 1, kind: Some(OpKind::AddHlR16(RegisterWide::SP)) }),
    0x3a => Some(Opcode { size_bytes: 1, kind: Some(OpKind::LdR8IndR16(Register::A, RegisterWide::HL, IndirectAddressingMode::Decrement)) }),
    0x3b => Some(Opcode { size_bytes: 1, kind: Some(OpKind::DecR16(RegisterWide::SP)) }),
    0x3c => Some(Opcode { size_bytes: 1, kind: Some(OpKind::IncR8(Register::A)) }),
    0x3d => Some(Opcode { size_bytes: 1, kind: Some(OpKind::DecR8(Register::A)) }),
    0x3e => Some(Opcode { size_bytes: 2, kind: Some(OpKind::LdR8N8(Register::A)) }),
    0x3f => Some(Opcode { size_bytes: 1, kind: None }),
        _ => None,
    }
}

pub open spec fn spec_decode_row4(byte: u8) -> Option<Opcode> {
    match byte {
    0x40 => Some(Opcode { size_bytes: 1, kind: Some(OpKind::LdR8R8(Register::B, Register::B)) }),
    0x41 => Some(Opcode { size_bytes: 1, kind: Some(OpKind::LdR8R8(Register::B, Register::C)) }),
    0x42 => Some(Opcode { size_bytes: 1, kind: Some(OpKind::LdR8R8(Register::B, Register::D)) }),
    0x43 => Some(Opcode { size_bytes: 1, kind: Some(OpKind::LdR8R8(Register::B, Register::E)) }),
    0x44 => Some(Opcode { size_bytes: 1, kind: Some(OpKind::LdR8R8(Register::B, Register::H)) }),
    0x45 => Some(Opcode { size_bytes: 1, kind: Some(OpKind::LdR8R8(Register::B, Register::L)) }),
    0x46 => Some(Opcode { size_bytes: 1, kind: Some(OpKind::LdR8IndR16(Register::B, RegisterWide::HL, IndirectAddressingMode::Retain)) }),
    0x47 => Some(Opcode { size_bytes: 1, kind: Some(OpKind::LdR8R8(Register::B, Register::A)) }),
    0x48 => Some(Opcode { size_bytes: 1, kind: Some(OpKind::LdR8R8(Register::C, Register::B)) }),
    0x49 => Some(Opcode { size_bytes: 1, kind: Some(OpKind::LdR8R8(Register::C, Register::C)) }),
    0x4a => Some(Opcode { size_bytes: 1, kind: Some(OpKind::LdR8R8(Register::C, Register::D)) }),
    0x4b => Some(Opcode { size_bytes: 1, kind: Some(OpKind::LdR8R8(Register::C, Register::E)) }),
    0x4c => Some(Opcode { size_bytes: 1, kind: Some(OpKind::LdR8R8(Register::C, Register::H)) }),
    0x4d => Some(Opcode { size_bytes: 1, kind: Some(OpKind::LdR8R8(Register::C, Register::L)) }),
    0x4e => Some(Opcode { size_bytes: 1, kind: Some(OpKind::LdR8IndR16(Register::C, RegisterWide::HL, IndirectAddressingMode::Retain)) }),
    0x4f => Some(Opcode { size_bytes: 1, kind: Some(OpKind::LdR8R8(Register::C, Register::A)) }),
        _ => None,
    }
}

pub open spec fn spec_decode_row5(byte: u8) -> Option<Opcode> {
    match byte {
    0x50 => Some(Opcode { size_bytes: 1, kind: Some(OpKind::LdR8R8(Register::D, Register::B)) }),
    0x51 => Some(Opcode { size_bytes: 1, kind: Some(OpKind::LdR8R8(Register::D, Register::C)) }),
    0x52 => Some(Opcode { size_bytes: 1, kind: Some(OpKind::LdR8R8(Register::D, Register::D)) }),
    0x53 => Some(Opcode { size_bytes: 1, kind: Some(OpKind::LdR8R8(Register::D, Register::E)) }),
    0x54 => Some(Opcode { size_bytes: 1, kind: Some(OpKind::LdR8R8(Register::D, Register::H)) }),
    0x55 => Some(Opcode { size_bytes: 1, kind: Some(OpKind::LdR8R8(Register::D, Register::L)) }),
    0x56 => Some(Opcode { size_bytes: 1, kind: Some(OpKind::LdR8IndR16(Register::D, RegisterWide::HL, IndirectAddressingMode::Retain)) }),
    0x57 => Some(Opcode { size_bytes: 1, kind: Some(OpKind::LdR8R8(Register::D, Register::A)) }),
    0x58 => Some(Opcode { size_bytes: 1, kind: Some(OpKind::LdR8R8(Register::E, Register::B)) }),
    0x59 => Some(Opcode { size_bytes: 1, kind: Some(OpKind::LdR8R8(Register::E, Register::C)) }),
    0x5a => Some(Opcode { size_bytes: 1, kind: Some(OpKind::LdR8R8(Register::E, Register::D)) }),
    0x5b => Some(Opcode { size_bytes: 1, kind: Some(OpKind::LdR8R8(Register::E, Register::E)) }),
    0x5c => Some(Opcode { size_bytes: 1, kind: Some(OpKind::LdR8R8(Register::E, Register::H)) }),
    0x5d => Some(Opcode { size_bytes: 1, kind: Some(OpKind::LdR8R8(Register::E, Register::L)) }),
    0x5e => Some(Opcode { size_bytes: 1, kind: Some(OpKind::LdR8IndR16(Register::E, RegisterWide::HL, IndirectAddressingMode::Retain)) }),
    0x5f => Some(Opcode { size_bytes: 1, kind: Some(OpKind::LdR8R8(Register::E, Register::A)) }),
        _ => None,
    }
}

pub open spec fn spec_decode_row6(byte: u8) -> Option<Opcode> {
    match byte {
    0x60 => Some(Opcode { size_bytes: 1, kind: Some(OpKind::LdR8R8(Register::H, Register::B)) }),
    0x61 => Some(Opcode { size_bytes: 1, kind: Some(OpKind::LdR8R8(Register::H, Register::C)) }),
    0x62 => Some(Opcode { size_bytes: 1, kind: Some(OpKind::LdR8R8(Register::H, Register::D)) }),
    0x63 => Some(Opcode { size_bytes: 1, kind: Some(OpKind::LdR8R8(Register::H, Register::E)) }),
    0x64 => Some(Opcode { size_bytes: 1, kind: Some(OpKind::LdR8R8(Register::H, Register::H)) }),
    0x65 => Some(Opcode { size_bytes: 1, kind: Some(OpKind::LdR8R8(Register::H, Register::L)) }),
    0x66 => Some(Opcode { size_bytes: 1, kind: Some(OpKind::LdR8IndR16(Register::H, RegisterWide::HL, IndirectAddressingMode::Retain)) }),
    0x67 => Some(Opcode { size_bytes: 1, kind: Some(OpKind::LdR8R8(Register::H, Register::A)) }),
    0x68 => Some(Opcode { size_bytes: 1, kind: Some(OpKind::LdR8R8(Register::L, Register::B)) }),
    0x69 => Some(Opcode { size_bytes: 1, kind: Some(OpKind::LdR8R8(Register::L, Register::C)) }),
    0x6a => Some(Opcode { size_bytes: 1, kind: Some(OpKind::LdR8R8(Register::L, Register::D)) }),
    0x6b => Some(Opcode { size_bytes: 1, kind: Some(OpKind::LdR8R8(Register::L, Register::E)) }),
    0x6c => Some(Opcode { size_bytes: 1, kind: Some(OpKind::LdR8R8(Register::L, Register::H)) }),
    0x6d => Some(Opcode { size_bytes: 1, kind: Some(OpKind::LdR8R8(Register::L, Register::L)) }),
    0x6e => Some(Opcode { size_bytes: 1, kind: Some(OpKind::LdR8IndR16(Register::L, RegisterWide::HL, IndirectAddressingMode::Retain)) }),
    0x6f => Some(Opcode { size_bytes: 1, kind: Some(OpKind::LdR8R8(Register::L, Register::A)) }),
        _ => None,
    }
}

pub open spec fn spec_decode_row7(byte: u8) -> Option<Opcode> {
    match byte {
    0x70 => Some(Opcode { size_bytes: 1, kind: Some(OpKind::LdIndR16R8(RegisterWide::HL, Register::B, IndirectAddressingMode::Retain)) }),
    0x71 => Some(Opcode { size_bytes: 1, kind: Some(OpKind::LdIndR16R8(RegisterWide::HL, Register::C, IndirectAddressingMode::Retain)) }),
    0x72 => Some(Opcode { size_bytes: 1, kind: Some(OpKind::LdIndR16R8(RegisterWide::HL, Register::D, IndirectAddressingMode::Retain)) }),
    0x73 => Some(Opcode { size_bytes: 1, kind: Some(OpKind::LdIndR16R8(RegisterWide::HL, Register::E, IndirectAddressingMode::Retain)) }),
    0x74 => Some(Opcode { size_bytes: 1, kind: Some(OpKind::LdIndR16R8(RegisterWide::HL, Register::H, IndirectAddressingMode::Retain)) }),
    0x75 => Some(Opcode { size_bytes: 1, kind: Some(OpKind::LdIndR16R8(RegisterWide::HL, Register::L, IndirectAddressingMode::Retain)) }),
    0x76 => Some(Opcode { size_bytes: 1, kind: None }),
    0x77 => Some(Opcode { size_bytes: 1, kind: Some(OpKind::LdIndR16R8(RegisterWide::HL, Register::A, IndirectAddressingMode::Retain)) }),
    0x78 => Some(Opcode { size_bytes: 1, kind: Some(OpKind::LdR8R8(Register::A, Register::B)) }),
    0x79 => Some(Opcode { size_bytes: 1, kind: Some(OpKind::LdR8R8(Register::A, Register::C)) }),
    0x7a => Some(Opcode { size_bytes: 1, kind: Some(OpKind::LdR8R8(Register::A, Register::D)) }),
    0x7b => Some(Opcode { size_bytes: 1, kind: Some(OpKind::LdR8R8(Register::A, Register::E)) }),
    0x7c => Some(Opcode { size_bytes: 1, kind: Some(OpKind::LdR8R8(Register::A, Register::H)) }),
    0x7d => Some(Opcode { size_bytes: 1, kind: Some(OpKind::LdR8R8(Register::A, Register::L)) }),
    0x7e => Some(Opcode { size_bytes: 1, kind: Some(OpKind::LdR8IndR16(Register::A, RegisterWide::HL, IndirectAddressingMode::Retain)) }),
    0x7f => Some(Opcode { size_bytes: 1, kind: Some(OpKind::LdR8R8(Register::A, Register::A)) }),
        _ => None,
    }
}

pub open spec fn spec_decode_row8(byte: u8) -> Option<Opcode> {
    match byte {
    0x80 => Some(Opcode { size_bytes: 1, kind: Some(OpKind::AluR8(AluOp::Add, Register::B)) }),
    0x81 => Some(Opcode { size_bytes: 1, kind: Some(OpKind::AluR8(AluOp::Add, Register::C)) }),
    0x82 => Some(Opcode { size_bytes: 1, kind: Some(OpKind::AluR8(AluOp::Add, Register::D)) }),
    0x83 => Some(Opcode { size_bytes: 1, kind: Some(OpKind::AluR8(AluOp::Add, Register::E)) }),
    0x84 => Some(Opcode { size_bytes: 1, kind: Some(OpKind::AluR8(AluOp::Add, Register::H)) }),
    0x85 => Some(Opcode { size_bytes: 1, kind: Some(OpKind::AluR8(AluOp::Add, Register::L)) }),
    0x86 => Some(Opcode { size_bytes: 1, kind: Some(OpKind::AluIndHl(AluOp::Add)) }),
    0x87 => Some(Opcode { size_bytes: 1, kind: Some(OpKind::AluR8(AluOp::Add, Register::A)) }),
    0x88 => Some(Opcode { size_bytes: 1, kind: Some(OpKind::AluR8(AluOp::Adc, Register::B)) }),
    0x89 => Some(Opcode { size_bytes: 1, kind: Some(OpKind::AluR8(AluOp::Adc, Register::C)) }),
    0x8a => Some(Opcode { size_bytes: 1, kind: Some(OpKind::AluR8(AluOp::Adc, Register::D)) }),
    0x8b => Some(Opcode { size_bytes: 1, kind: Some(OpKind::AluR8(AluOp::Adc, Register::E)) }),
    0x8c => Some(Opcode { size_bytes: 1, kind: Some(OpKind::AluR8(AluOp::Adc, Register::H)) }),
    0x8d => Some(Opcode { size_bytes: 1, kind: Some(OpKind::AluR8(AluOp::Adc, Register::L)) }),
    0x8e => Some(Opcode { size_bytes: 1, kind: Some(OpKind::AluIndHl(AluOp::Adc)) }),
    0x8f => Some(Opcode { size_bytes: 1, kind: Some(OpKind::AluR8(AluOp::Adc, Register::A)) }),
        _ => None,
    }
}

pub open spec fn spec_decode_row9(byte: u8) -> Option<Opcode> {
    match byte {
    0x90 => Some(Opcode { size_bytes: 1, kind: Some(OpKind::AluR8(AluOp::Sub, Register::B)) }),
    0x91 => Some(Opcode { size_bytes: 1, kind: Some(OpKind::AluR8(AluOp::Sub, Register::C)) }),
    0x92 => Some(Opcode { size_bytes: 1, kind: Some(OpKind::AluR8(AluOp::Sub, Register::D)) }),
    0x93 => Some(Opcode { size_bytes: 1, kind: Some(OpKind::AluR8(AluOp::Sub, Register::E)) }),
    0x94 => Some(Opcode { size_bytes: 1, kind: Some(OpKind::AluR8(AluOp::Sub, Register::H)) }),
    0x95 => Some(Opcode { size_bytes: 1, kind: Some(OpKind::AluR8(AluOp::Sub, Register::L)) }),
    0x96 => Some(Opcode { size_bytes: 1, kind: None }),
    0x97 => Some(Opcode { size_bytes: 1, kind: Some(OpKind::AluR8(AluOp::Sub, Register::A)) }),
    0x98 => Some(Opcode { size_bytes: 1, kind: Some(OpKind::AluR8(AluOp::Sbc, Register::B)) }),
    0x99 => Some(Opcode { size_bytes: 1, kind: Some(OpKind::AluR8(AluOp::Sbc, Register::C)) }),
    0x9a => Some(Opcode { size_bytes: 1, kind: Some(OpKind::AluR8(AluOp::Sbc, Register::D)) }),
    0x9b => Some(Opcode { size_bytes: 1, kind: Some(OpKind::AluR8(AluOp::Sbc, Register::E)) }),
    0x9c => Some(Opcode { size_bytes: 1, kind: Some(OpKind::AluR8(AluOp::Sbc, Register::H)) }),
    0x9d => Some(Opcode { size_bytes: 1, kind: Some(OpKind::AluR8(AluOp::Sbc, Register::L)) }),
    0x9e => Some(Opcode { size_bytes: 1, kind: None }),
    0x9f => Some(Opcode { size_bytes: 1, kind: Some(OpKind::AluR8(AluOp::Sbc, Register::A)) }),
        _ => None,
    }
}

pub open spec fn spec_decode_rowa(byte: u8) -> Option<Opcode> {
    match byte {
    0xa0 => Some(Opcode { size_bytes: 1, kind: Some(OpKind::AluR8(AluOp::And, Register::B)) }),
    0xa1 => Some(Opcode { size_bytes: 1, kind: Some(OpKind::AluR8(AluOp::And, Register::C)) }),
    0xa2 => Some(Opcode { size_bytes: 1, kind: Some(OpKind::AluR8(AluOp::And, Register::D)) }),
    0xa3 => Some(Opcode { size_bytes: 1, kind: Some(OpKind::AluR8(AluOp::And, Register::E)) }),
    0xa4 => Some(Opcode { size_bytes: 1, kind: Some(OpKind::AluR8(AluOp::And, Register::H)) }),
    0xa5 => Some(Opcode { size_bytes: 1, kind: Some(OpKind::AluR8(AluOp::And, Register::L)) }),
    0xa6 => Some(Opcode { size_bytes: 1, kind: None }),
    0xa7 => Some(Opcode { size_bytes: 1, kind: Some(OpKind::AluR8(AluOp::And, Register::A)) }),
    0xa8 => Some(Opcode { size_bytes: 1, kind: Some(OpKind::AluR8(AluOp::Xor, Register::B)) }),
    0xa9 => Some(Opcode { size_bytes: 1, kind: Some(OpKind::AluR8(AluOp::Xor, Register::C)) }),
    0xaa => Some(Opcode { size_bytes: 1, kind: Some(OpKind::AluR8(AluOp::Xor, Register::D)) }),
    0xab => Some(Opcode { size_bytes: 1, kind: Some(OpKind::AluR8(AluOp::Xor, Register::E)) }),
    0xac => Some(Opcode { size_bytes: 1, kind: Some(OpKind::AluR8(AluOp::Xor, Register::H)) }),
    0xad => Some(Opcode { size_bytes: 1, kind: Some(OpKind::AluR8(AluOp::Xor, Register::L)) }),
    0xae => Some(Opcode { size_bytes: 1, kind: Some(OpKind::AluIndHl(AluOp::Xor)) }),
    0xaf => Some(Opcode { size_bytes: 1, kind: Some(OpKind::AluR8(AluOp::Xor, Register::A)) }),
        _ => None,
    }
}

pub open spec fn spec_decode_rowb(byte: u8) -> Option<Opcode> {
    match byte {
    0xb0 => Some(Opcode { size_bytes: 1, kind: Some(OpKind::AluR8(AluOp::Or, Register::B)) }),
    0xb1 => Some(Opcode { size_bytes: 1, kind: Some(OpKind::AluR8(AluOp::Or, Register::C)) }),
    0xb2 => Some(Opcode { size_bytes: 1, kind: Some(OpKind::AluR8(AluOp::Or, Register::D)) }),
    0xb3 => Some(Opcode { size_bytes: 1, kind: Some(OpKind::AluR8(AluOp::Or, Register::E)) }),
    0xb4 => Some(Opcode { size_bytes: 1, kind: Some(OpKind::AluR8(AluOp::Or, Register::H)) }),
    0xb5 => Some(Opcode { size_bytes: 1, kind: Some(OpKind::AluR8(AluOp::Or, Register::L)) }),
    0xb6 => Some(Opcode { size_bytes: 1, kind: Some(OpKind::AluIndHl(AluOp::Or)) }),
    0xb7 => Some(Opcode { size_bytes: 1, kind: Some(OpKind::AluR8(AluOp::Or, Register::A)) }),
    0xb8 => Some(Opcode { size_bytes: 1, kind: Some(OpKind::AluR8(AluOp::Cp, Register::B)) }),
    0xb9 => Some(Opcode { size_bytes: 1, kind: Some(OpKind::AluR8(AluOp::Cp, Register::C)) }),
    0xba => Some(Opcode { size_bytes: 1, kind: Some(OpKind::AluR8(AluOp::Cp, Register::D)) }),
    0xbb => Some(Opcode { size_bytes: 1, kind: Some(OpKind::AluR8(AluOp::Cp, Register::E)) }),
    0xbc => Some(Opcode { size_bytes: 1, kind: Some(OpKind::AluR8(AluOp::Cp, Register::H)) }),
    0xbd => Some(Opcode { size_bytes: 1, kind: Some(OpKind::AluR8(AluOp::Cp, Register::L)) }),
    0xbe => Some(Opcode { size_bytes: 1, kind: Some(OpKind::AluIndHl(AluOp::Cp)) }),
    0xbf => Some(Opcode { size_bytes: 1, kind: Some(OpKind::AluR8(AluOp::Cp, Register::A)) }),
        _ => None,
    }
}

pub open spec fn spec_decode_rowc(byte: u8) -> Option<Opcode> {
    match byte {
    0xc0 => Some(Opcode { size_bytes: 1, kind: Some(OpKind::RetCond(Cond::NotZero)) }),
    0xc1 => Some(Opcode { size_bytes: 1, kind: Some(OpKind::Pop(RegisterWide::BC)) }),
    0xc2 => Some(Opcode { size_bytes: 3, kind: Some(OpKind::JpCond(Cond::NotZero)) }),
    0xc3 => Some(Opcode { size_bytes: 3, kind: Some(OpKind::Jp) }),
    0xc4 => Some(Opcode { size_bytes: 3, kind: Some(OpKind::CallCond(Cond::NotZero)) }),
    0xc5 => Some(Opcode { size_bytes: 1, kind: Some(OpKind::Push(RegisterWide::BC)) }),
    0xc6 => Some(Opcode { size_bytes: 2, kind: Some(OpKind::AluN8(AluOp::Add)) }),
    0xc7 => Some(Opcode { size_bytes: 1, kind: Some(OpKind::Rst(0x00)) }),
    0xc8 => Some(Opcode { size_bytes: 1, kind: Some(OpKind::RetCond(Cond::Zero)) }),
    0xc9 => Some(Opcode { size_bytes: 1, kind: Some(OpKind::Ret) }),
    0xca => Some(Opcode { size_bytes: 3, kind: Some(OpKind::JpCond(Cond::Zero)) }),
    0xcb => Some(Opcode { size_bytes: 1, kind: Some(OpKind::Prefix) }),
    0xcc => Some(Opcode { size_bytes: 3, kind: Some(OpKind::CallCond(Cond::Zero)) }),
    0xcd => Some(Opcode { size_bytes: 3, kind: Some(OpKind::Call) }),
    0xce => Some(Opcode { size_bytes: 2, kind: Some(OpKind::AluN8(AluOp::Adc)) }),
    0xcf => Some(Opcode { size_bytes: 1, kind: Some(OpKind::Rst(0x08)) }),
        _ => None,
    }
}

pub open spec fn spec_decode_rowd(byte: u8) -> Option<Opcode> {
    match byte {
    0xd0 => Some(Opcode { size_bytes: 1, kind: Some(OpKind::RetCond(Cond::NotCarry)) }),
    0xd1 => Some(Opcode { size_bytes: 1, kind: Some(OpKind::Pop(RegisterWide::DE)) }),
    0xd2 => Some(Opcode { size_bytes: 3, kind: Some(OpKind::JpCond(Cond::NotCarry)) }),
    0xd4 => Some(Opcode { size_bytes: 3, kind: Some(OpKind::CallCond(Cond::NotCarry)) }),
    0xd5 => Some(Opcode { size_bytes: 1, kind: Some(OpKind::Push(RegisterWide::DE)) }),
    0xd6 => Some(Opcode { size_bytes: 2, kind: Some(OpKind::AluN8(AluOp::Sub)) }),
    0xd7 => Some(Opcode { size_bytes: 1, kind: Some(OpKind::Rst(0x10)) }),
    0xd8 => Some(Opcode { size_bytes: 1, kind: Some(OpKind::RetCond(Cond::Carry)) }),
    0xd9 => Some(Opcode { size_bytes: 1, kind: Some(OpKind::Reti) }),
    0xda => Some(Opcode { size_bytes: 3, kind: Some(OpKind::JpCond(Cond::Carry)) }),
    0xdc => Some(Opcode { size_bytes: 3, kind: Some(OpKind::CallCond(Cond::Carry)) }),
    0xde => Some(Opcode { size_bytes: 2, kind: Some(OpKind::AluN8(AluOp::Sbc)) }),
    0xdf => Some(Opcode { size_bytes: 1, kind: Some(OpKind::Rst(0x18)) }),
        _ => None,
    }
}

pub open spec fn spec_decode_rowe(byte: u8) -> Option<Opcode> {
    match byte {
    0xe0 => Some(Opcode { size_bytes: 2, kind: Some(OpKind::LdhA8A) }),
    0xe1 => Some(Opcode { size_bytes: 1, kind: Some(OpKind::Pop(RegisterWide::HL)) }),
    0xe2 => Some(Opcode { size_bytes: 1, kind: Some(OpKind::LdIndCA) }),
    0xe5 => Some(Opcode { size_bytes: 1, kind: Some(OpKind::Push(RegisterWide::HL)) }),
    0xe6 => Some(Opcode { size_bytes: 2, kind: Some(OpKind::AluN8(AluOp::And)) }),
    0xe7 => Some(Opcode { size_bytes: 1, kind: Some(OpKind::Rst(0x20)) }),
    0xe8 => Some(Opcode { size_bytes: 2, kind: Some(OpKind::AddSpE8) }),
    0xe9 => Some(Opcode { size_bytes: 1, kind: Some(OpKind::JpHl) }),
    0xea => Some(Opcode { size_bytes: 3, kind: Some(OpKind::LdA16A) }),
    0xee => Some(Opcode { size_bytes: 2, kind: Some(OpKind::AluN8(AluOp::Xor)) }),
    0xef => Some(Opcode { size_bytes: 1, kind: Some(OpKind::Rst(0x28)) }),
        _ => None,
    }
}

pub open spec fn spec_decode_rowf(byte: u8) -> Option<Opcode> {
    match byte {
    0xf0 => Some(Opcode { size_bytes: 2, kind: Some(OpKind::LdhAA8) }),
    0xf1 => Some(Opcode { size_bytes: 1, kind: Some(OpKind::Pop(RegisterWide::AF)) }),
    0xf2 => Some(Opcode { size_bytes: 1, kind: None }),
    0xf3 => Some(Opcode { size_bytes: 1, kind: Some(OpKind::Di) }),
    0xf5 => Some(Opcode { size_bytes: 1, kind: Some(OpKind::Push(RegisterWide::AF)) }),
    0xf6 => Some(Opcode { size_bytes: 2, kind: Some(OpKind::AluN8(AluOp::Or)) }),
    0xf7 => Some(Opcode { size_bytes: 1, kind: Some(OpKind::Rst(0x30)) }),
    0xf8 => Some(Opcode { size_bytes: 2, kind: Some(OpKind::LdHlSpE8) }),
    0xf9 => Some(Opcode { size_bytes: 1, kind: Some(OpKind::LdSpHl) }),
    0xfa => Some(Opcode { size_bytes: 3, kind: Some(OpKind::LdAA16) }),
    0xfb => Some(Opcode { size_bytes: 1, kind: Some(OpKind::Ei) }),
    0xfe => Some(Opcode { size_bytes: 2, kind: Some(OpKind::AluN8(AluOp::Cp)) }),
    0xff => Some(Opcode { size_bytes: 1, kind: Some(OpKind::Rst(0x38)) }),
        _ => None,
    }
}

pub open spec fn spec_decode(byte: u8) -> Option<Opcode> {
    if byte < 0x10 { spec_decode_row0(byte) }
    else if byte < 0x20 { spec_decode_row1(byte) }
    else if byte < 0x30 { spec_decode_row2(byte) }
    else if byte < 0x40 { spec_decode_row3(byte) }
    else if byte < 0x50 { spec_decode_row4(byte) }
    else if byte < 0x60 { spec_decode_row5(byte) }
    else if byte < 0x70 { spec_decode_row6(byte) }
    else if byte < 0x80 { spec_decode_row7(byte) }
    else if byte < 0x90 { spec_decode_row8(byte) }
    else if byte < 0xa0 { spec_decode_row9(byte) }
    else if byte < 0xb0 { spec_decode_rowa(byte) }
    else if byte < 0xc0 { spec_decode_rowb(byte) }
    else if byte < 0xd0 { spec_decode_rowc(byte) }
    else if byte < 0xe0 { spec_decode_rowd(byte) }
    else if byte < 0xf0 { spec_decode_rowe(byte) }
    else { spec_decode_rowf(byte) }
}

pub open spec fn spec_decode_prefixed_row0(byte: u8) -> Option<Opcode> {
    match byte {
    0x00 => Some(Opcode { size_bytes: 1, kind: None }),
    0x01 => Some(Opcode { size_bytes: 1, kind: None }),
    0x02 => Some(Opcode { size_bytes: 1, kind: None }),
    0x03 => Some(Opcode { size_bytes: 1, kind: None }),
    0x04 => Some(Opcode { size_bytes: 1, kind: None }),
    0x05 => Some(Opcode { size_bytes: 1, kind: None }),
    0x06 => Some(Opcode { size_bytes: 1, kind: None }),
    0x07 => Some(Opcode { size_bytes: 1, kind: None }),
    0x08 => Some(Opcode { size_bytes: 1, kind: None }),
    0x09 => Some(Opcode { size_bytes: 1, kind: None }),
    0x0a => Some(Opcode { size_bytes: 1, kind: None }),
    0x0b => Some(Opcode { size_bytes: 1, kind: None }),
    0x0c => Some(Opcode { size_bytes: 1, kind: None }),
    0x0d => Some(Opcode { size_bytes: 1, kind: None }),
    0x0e => Some(Opcode { size_bytes: 1, kind: None }),
    0x0f => Some(Opcode { size_bytes: 1, kind: None }),
        _ => None,
    }
}

pub open spec fn spec_decode_prefixed_row1(byte: u8) -> Option<Opcode> {
    match byte {
    0x10 => Some(Opcode { size_bytes: 1, kind: Some(OpKind::RlR8(Register::B)) }),
    0x11 => Some(Opcode { size_bytes: 1, kind: Some(OpKind::RlR8(Register::C)) }),
    0x12 => Some(Opcode { size_bytes: 1, kind: Some(OpKind::RlR8(Register::D)) }),
    0x13 => Some(Opcode { size_bytes: 1, kind: Some(OpKind::RlR8(Register::E)) }),
    0x14 => Some(Opcode { size_bytes: 1, kind: Some(OpKind::RlR8(Register::H)) }),
    0x15 => Some(Opcode { size_bytes: 1, kind: Some(OpKind::RlR8(Register::L)) }),
    0x16 => Some(Opcode { size_bytes: 1, kind: None }),
    0x17 => Some(Opcode { size_bytes: 1, kind: Some(OpKind::RlR8(Register::A)) }),
    0x18 => Some(Opcode { size_bytes: 1, kind: Some(OpKind::RrR8(Register::B)) }),
    0x19 => Some(Opcode { size_bytes: 1, kind: Some(OpKind::RrR8(Register::C)) }),
    0x1a => Some(Opcode { size_bytes: 1, kind: Some(OpKind::RrR8(Register::D)) }),
    0x1b => Some(Opcode { size_bytes: 1, kind: Some(OpKind::RrR8(Register::E)) }),
    0x1c => Some(Opcode { size_bytes: 1, kind: Some(OpKind::RrR8(Register::H)) }),
    0x1d => Some(Opcode { size_bytes: 1, kind: Some(OpKind::RrR8(Register::L)) }),
    0x1e => Some(Opcode { size_bytes: 1, kind: None }),
    0x1f => Some(Opcode { size_bytes: 1, kind: Some(OpKind::RrR8(Register::A)) }),
        _ => None,
    }
}

pub open spec fn spec_decode_prefixed_row2(byte: u8) -> Option<Opcode> {
    match byte {
    0x20 => Some(Opcode { size_bytes: 1, kind: Some(OpKind::SlaR8(Register::B)) }),
    0x21 => Some(Opcode { size_bytes: 1, kind: Some(OpKind::SlaR8(Register::C)) }),
    0x22 => Some(Opcode { size_bytes: 1, kind: Some(OpKind::SlaR8(Register::D)) }),
    0x23 => Some(Opcode { size_bytes: 1, kind: Some(OpKind::SlaR8(Register::E)) }),
    0x24 => Some(Opcode { size_bytes: 1, kind: Some(OpKind::SlaR8(Register::H)) }),
    0x25 => Some(Opcode { size_bytes: 1, kind: Some(OpKind::SlaR8(Register::L)) }),
    0x26 => Some(Opcode { size_bytes: 1, kind: None }),
    0x27 => Some(Opcode { size_bytes: 1, kind: Some(OpKind::SlaR8(Register::A)) }),
    0x28 => Some(Opcode { size_bytes: 1, kind: None }),
    0x29 => Some(Opcode { size_bytes: 1, kind: None }),
    0x2a => Some(Opcode { size_bytes: 1, kind: None }),
    0x2b => Some(Opcode { size_bytes: 1, kind: None }),
    0x2c => Some(Opcode { size_bytes: 1, kind: None }),
    0x2d => Some(Opcode { size_bytes: 1, kind: None }),
    0x2e => Some(Opcode { size_bytes: 1, kind: None }),
    0x2f => Some(Opcode { size_bytes: 1, kind: None }),
        _ => None,
    }
}

pub open spec fn spec_decode_prefixed_row3(byte: u8) -> Option<Opcode> {
    match byte {
    0x30 => Some(Opcode { size_bytes: 1, kind: Some(OpKind::SwapR8(Register::B)) }),
    0x31 => Some(Opcode { size_bytes: 1, kind: Some(OpKind::SwapR8(Register::C)) }),
    0x32 => Some(Opcode { size_bytes: 1, kind: Some(OpKind::SwapR8(Register::D)) }),
    0x33 => Some(Opcode { size_bytes: 1, kind: Some(OpKind::SwapR8(Register::E)) }),
    0x34 => Some(Opcode { size_bytes: 1, kind: Some(OpKind::SwapR8(Register::H)) }),
    0x35 => Some(Opcode { size_bytes: 1, kind: Some(OpKind::SwapR8(Register::L)) }),
    0x36 => Some(Opcode { size_bytes: 1, kind: None }),
    0x37 => Some(Opcode { size_bytes: 1, kind: Some(OpKind::SwapR8(Register::A)) }),
    0x38 => Some(Opcode { size_bytes: 1, kind: Some(OpKind::SrlR8(Register::B)) }),
    0x39 => Some(Opcode { size_bytes: 1, kind: Some(OpKind::SrlR8(Register::C)) }),
    0x3a => Some(Opcode { size_bytes: 1, kind: Some(OpKind::SrlR8(Register::D)) }),
    0x3b => Some(Opcode { size_bytes: 1, kind: Some(OpKind::SrlR8(Register::E)) }),
    0x3c => Some(Opcode { size_bytes: 1, kind: Some(OpKind::SrlR8(Register::H)) }),
    0x3d => Some(Opcode { size_bytes: 1, kind: Some(OpKind::SrlR8(Register::L)) }),
    0x3e => Some(Opcode { size_bytes: 1, kind: None }),
    0x3f => Some(Opcode { size_bytes: 1, kind: Some(OpKind::SrlR8(Register::A)) }),
        _ => None,
    }
}

pub open spec fn spec_decode_prefixed_row4(byte: u8) -> Option<Opcode> {
    match byte {
    0x40 => Some(Opcode { size_bytes: 1, kind: Some(OpKind::BitR8(0, Register::B)) }),
    0x41 => Some(Opcode { size_bytes: 1, kind: Some(OpKind::BitR8(0, Register::C)) }),
    0x42 => Some(Opcode { size_bytes: 1, kind: Some(OpKind::BitR8(0, Register::D)) }),
    0x43 => Some(Opcode { size_bytes: 1, kind: Some(OpKind::BitR8(0, Register::E)) }),
    0x44 => Some(Opcode { size_bytes: 1, kind: Some(OpKind::BitR8(0, Register::H)) }),
    0x45 => Some(Opcode { size_bytes: 1, kind: Some(OpKind::BitR8(0, Register::L)) }),
    0x46 => Some(Opcode { size_bytes: 1, kind: Some(OpKind::BitIndHl(0)) }),
    0x47 => Some(Opcode { size_bytes: 1, kind: Some(OpKind::BitR8(0, Register::A)) }),
    0x48 => Some(Opcode { size_bytes: 1, kind: Some(OpKind::BitR8(1, Register::B)) }),
    0x49 => Some(Opcode { size_bytes: 1, kind: Some(OpKind::BitR8(1, Register::C)) }),
    0x4a => Some(Opcode { size_bytes: 1, kind: Some(OpKind::BitR8(1, Register::D)) }),
    0x4b => Some(Opcode { size_bytes: 1, kind: Some(OpKind::BitR8(1, Register::E)) }),
    0x4c => Some(Opcode { size_bytes: 1, kind: Some(OpKind::BitR8(1, Register::H)) }),
    0x4d => Some(Opcode { size_bytes: 1, kind: Some(OpKind::BitR8(1, Register::L)) }),
    0x4e => Some(Opcode { size_bytes: 1, kind: Some(OpKind::BitIndHl(1)) }),
    0x4f => Some(Opcode { size_bytes: 1, kind: Some(OpKind::BitR8(1, Register::A)) }),
        _ => None,
    }
}

pub open spec fn spec_decode_prefixed_row5(byte: u8) -> Option<Opcode> {
    match byte {
    0x50 => Some(Opcode { size_bytes: 1, kind: Some(OpKind::BitR8(2, Register::B)) }),
    0x51 => Some(Opcode { size_bytes: 1, kind: Some(OpKind::BitR8(2, Register::C)) }),
    0x52 => Some(Opcode { size_bytes: 1, kind: Some(OpKind::BitR8(2, Register::D)) }),
    0x53 => Some(Opcode { size_bytes: 1, kind: Some(OpKind::BitR8(2, Register::E)) }),
    0x54 => Some(Opcode { size_bytes: 1, kind: Some(OpKind::BitR8(2, Register::H)) }),
    0x55 => Some(Opcode { size_bytes: 1, kind: Some(OpKind::BitR8(2, Register::L)) }),
    0x56 => Some(Opcode { size_bytes: 1, kind: Some(OpKind::BitIndHl(2)) }),
    0x57 => Some(Opcode { size_bytes: 1, kind: Some(OpKind::BitR8(2, Register::A)) }),
    0x58 => Some(Opcode { size_bytes: 1, kind: Some(OpKind::BitR8(3, Register::B)) }),
    0x59 => Some(Opcode { size_bytes: 1, kind: Some(OpKind::BitR8(3, Register::C)) }),
    0x5a => Some(Opcode { size_bytes: 1, kind: Some(OpKind::BitR8(3, Register::D)) }),
    0x5b => Some(Opcode { size_bytes: 1, kind: Some(OpKind::BitR8(3, Register::E)) }),
    0x5c => Some(Opcode { size_bytes: 1, kind: Some(OpKind::BitR8(3, Register::H)) }),
    0x5d => Some(Opcode { size_bytes: 1, kind: Some(OpKind::BitR8(3, Register::L)) }),
    0x5e => Some(Opcode { size_bytes: 1, kind: Some(OpKind::BitIndHl(3)) }),
    0x5f => Some(Opcode { size_bytes: 1, kind: Some(OpKind::BitR8(3, Register::A)) }),
        _ => None,
    }
}

pub open spec fn spec_decode_prefixed_row6(byte: u8) -> Option<Opcode> {
    match byte {
    0x60 => Some(Opcode { size_bytes: 1, kind: Some(OpKind::BitR8(4, Register::B)) }),
    0x61 => Some(Opcode { size_bytes: 1, kind: Some(OpKind::BitR8(4, Register::C)) }),
    0x62 => Some(Opcode { size_bytes: 1, kind: Some(OpKind::BitR8(4, Register::D)) }),
    0x63 => Some(Opcode { size_bytes: 1, kind: Some(OpKind::BitR8(4, Register::E)) }),
    0x64 => Some(Opcode { size_bytes: 1, kind: Some(OpKind::BitR8(4, Register::H)) }),
    0x65 => Some(Opcode { size_bytes: 1, kind: Some(OpKind::BitR8(4, Register::L)) }),
    0x66 => Some(Opcode { size_bytes: 1, kind: Some(OpKind::BitIndHl(4)) }),
    0x67 => Some(Opcode { size_bytes: 1, kind: Some(OpKind::BitR8(4, Register::A)) }),
    0x68 => Some(Opcode { size_bytes: 1, kind: Some(OpKind::BitR8(5, Register::B)) }),
    0x69 => Some(Opcode { size_bytes: 1, kind: Some(OpKind::BitR8(5, Register::C)) }),
    0x6a => Some(Opcode { size_bytes: 1, kind: Some(OpKind::BitR8(5, Register::D)) }),
    0x6b => Some(Opcode { size_bytes: 1, kind: Some(OpKind::BitR8(5, Register::E)) }),
    0x6c => Some(Opcode { size_bytes: 1, kind: Some(OpKind::BitR8(5, Register::H)) }),
    0x6d => Some(Opcode { size_bytes: 1, kind: Some(OpKind::BitR8(5, Register::L)) }),
    0x6e => Some(Opcode { size_bytes: 1, kind: Some(OpKind::BitIndHl(5)) }),
    0x6f => Some(Opcode { size_bytes: 1, kind: Some(OpKind::BitR8(5, Register::A)) }),
        _ => None,
    }
}

pub open spec fn spec_decode_prefixed_row7(byte: u8) -> Option<Opcode> {
    match byte {
    0x70 => Some(Opcode { size_bytes: 1, kind: Some(OpKind::BitR8(6, Register::B)) }),
    0x71 => Some(Opcode { size_bytes: 1, kind: Some(OpKind::BitR8(6, Register::C)) }),
    0x72 => Some(Opcode { size_bytes: 1, kind: Some(OpKind::BitR8(6, Register::D)) }),
    0x73 => Some(Opcode { size_bytes: 1, kind: Some(OpKind::BitR8(6, Register::E)) }),
    0x74 => Some(Opcode { size_bytes: 1, kind: Some(OpKind::BitR8(6, Register::H)) }),
    0x75 => Some(Opcode { size_bytes: 1, kind: Some(OpKind::BitR8(6, Register::L)) }),
    0x76 => Some(Opcode { size_bytes: 1, kind: Some(OpKind::BitIndHl(6)) }),
    0x77 => Some(Opcode { size_bytes: 1, kind: Some(OpKind::BitR8(6, Register::A)) }),
    0x78 => Some(Opcode { size_bytes: 1, kind: Some(OpKind::BitR8(7, Register::B)) }),
    0x79 => Some(Opcode { size_bytes: 1, kind: Some(OpKind::BitR8(7, Register::C)) }),
    0x7a => Some(Opcode { size_bytes: 1, kind: Some(OpKind::BitR8(7, Register::D)) }),
    0x7b => Some(Opcode { size_bytes: 1, kind: Some(OpKind::BitR8(7, Register::E)) }),
    0x7c => Some(Opcode { size_bytes: 1, kind: Some(OpKind::BitR8(7, Register::H)) }),
    0x7d => Some(Opcode { size_bytes: 1, kind: Some(OpKind::BitR8(7, Register::L)) }),
    0x7e => Some(Opcode { size_bytes: 1, kind: Some(OpKind::BitIndHl(7)) }),
    0x7f => Some(Opcode { size_bytes: 1, kind: Some(OpKind::BitR8(7, Register::A)) }),
        _ => None,
    }
}

pub open spec fn spec_decode_prefixed_row8(byte: u8) -> Option<Opcode> {
    match byte {
    0x80 => Some(Opcode { size_bytes: 1, kind: Some(OpKind::ResR8(0, Register::B)) }),
    0x81 => Some(Opcode { size_bytes: 1, kind: Some(OpKind::ResR8(0, Register::C)) }),
    0x82 => Some(Opcode { size_bytes: 1, kind: Some(OpKind::ResR8(0, Register::D)) }),
    0x83 => Some(Opcode { size_bytes: 1, kind: Some(OpKind::ResR8(0, Register::E)) }),
    0x84 => Some(Opcode { size_bytes: 1, kind: Some(OpKind::ResR8(0, Register::H)) }),
    0x85 => Some(Opcode { size_bytes: 1, kind: Some(OpKind::ResR8(0, Register::L)) }),
    0x86 => Some(Opcode { size_bytes: 1, kind: Some(OpKind::ResIndHl(0)) }),
    0x87 => Some(Opcode { size_bytes: 1, kind: Some(OpKind::ResR8(0, Register::A)) }),
    0x88 => Some(Opcode { size_bytes: 1, kind: Some(OpKind::ResR8(1, Register::B)) }),
    0x89 => Some(Opcode { size_bytes: 1, kind: Some(OpKind::ResR8(1, Register::C)) }),
    0x8a => Some(Opcode { size_bytes: 1, kind: Some(OpKind::ResR8(1, Register::D)) }),
    0x8b => Some(Opcode { size_bytes: 1, kind: Some(OpKind::ResR8(1, Register::E)) }),
    0x8c => Some(Opcode { size_bytes: 1, kind: Some(OpKind::ResR8(1, Register::H)) }),
    0x8d => Some(Opcode { size_bytes: 1, kind: Some(OpKind::ResR8(1, Register::L)) }),
    0x8e => Some(Opcode { size_bytes: 1, kind: Some(OpKind::ResIndHl(1)) }),
    0x8f => Some(Opcode { size_bytes: 1, kind: Some(OpKind::ResR8(1, Register::A)) }),
        _ => None,
    }
}

pub open spec fn spec_decode_prefixed_row9(byte: u8) -> Option<Opcode> {
    match byte {
    0x90 => Some(Opcode { size_bytes: 1, kind: Some(OpKind::ResR8(2, Register::B)) }),
    0x91 => Some(Opcode { size_bytes: 1, kind: Some(OpKind::ResR8(2, Register::C)) }),
    0x92 => Some(Opcode { size_bytes: 1, kind: Some(OpKind::ResR8(2, Register::D)) }),
    0x93 => Some(Opcode { size_bytes: 1, kind: Some(OpKind::ResR8(2, Register::E)) }),
    0x94 => Some(Opcode { size_bytes: 1, kind: Some(OpKind::ResR8(2, Register::H)) }),
    0x95 => Some(Opcode { size_bytes: 1, kind: Some(OpKind::ResR8(2, Register::L)) }),
    0x96 => Some(Opcode { size_bytes: 1, kind: Some(OpKind::ResIndHl(2)) }),
    0x97 => Some(Opcode { size_bytes: 1, kind: Some(OpKind::ResR8(2, Register::A)) }),
    0x98 => Some(Opcode { size_bytes: 1, kind: Some(OpKind::ResR8(3, Register::B)) }),
    0x99 => Some(Opcode { size_bytes: 1, kind: Some(OpKind::ResR8(3, Register::C)) }),
    0x9a => Some(Opcode { size_bytes: 1, kind: Some(OpKind::ResR8(3, Register::D)) }),
    0x9b => Some(Opcode { size_bytes: 1, kind: Some(OpKind::ResR8(3, Register::E)) }),
    0x9c => Some(Opcode { size_bytes: 1, kind: Some(OpKind::ResR8(3, Register::H)) }),
    0x9d => Some(Opcode { size_bytes: 1, kind: Some(OpKind::ResR8(3, Register::L)) }),
    0x9e => Some(Opcode { size_bytes: 1, kind: Some(OpKind::ResIndHl(3)) }),
    0x9f => Some(Opcode { size_bytes: 1, kind: Some(OpKind::ResR8(3, Register::A)) }),
        _ => None,
    }
}

pub open spec fn spec_decode_prefixed_rowa(byte: u8) -> Option<Opcode> {
    match byte {
    0xa0 => Some(Opcode { size_bytes: 1, kind: Some(OpKind::ResR8(4, Register::B)) }),
    0xa1 => Some(Opcode { size_bytes: 1, kind: Some(OpKind::ResR8(4, Register::C)) }),
    0xa2 => Some(Opcode { size_bytes: 1, kind: Some(OpKind::ResR8(4, Register::D)) }),
    0xa3 => Some(Opcode { size_bytes: 1, kind: Some(OpKind::ResR8(4, Register::E)) }),
    0xa4 => Some(Opcode { size_bytes: 1, kind: Some(OpKind::ResR8(4, Register::H)) }),
    0xa5 => Some(Opcode { size_bytes: 1, kind: Some(OpKind::ResR8(4, Register::L)) }),
    0xa6 => Some(Opcode { size_bytes: 1, kind: Some(OpKind::ResIndHl(4)) }),
    0xa7 => Some(Opcode { size_bytes: 1, kind: Some(OpKind::ResR8(4, Register::A)) }),
    0xa8 => Some(Opcode { size_bytes: 1, kind: Some(OpKind::ResR8(5, Register::B)) }),
    0xa9 => Some(Opcode { size_bytes: 1, kind: Some(OpKind::ResR8(5, Register::C)) }),
    0xaa => Some(Opcode { size_bytes: 1, kind: Some(OpKind::ResR8(5, Register::D)) }),
    0xab => Some(Opcode { size_bytes: 1, kind: Some(OpKind::ResR8(5, Register::E)) }),
    0xac => Some(Opcode { size_bytes: 1, kind: Some(OpKind::ResR8(5, Register::H)) }),
    0xad => Some(Opcode { size_bytes: 1, kind: Some(OpKind::ResR8(5, Register::L)) }),
    0xae => Some(Opcode { size_bytes: 1, kind: Some(OpKind::ResIndHl(5)) }),
    0xaf => Some(Opcode { size_bytes: 1, kind: Some(OpKind::ResR8(5, Register::A)) }),
        _ => None,
    }
}

pub open spec fn spec_decode_prefixed_rowb(byte: u8) -> Option<Opcode> {
    match byte {
    0xb0 => Some(Opcode { size_bytes: 1, kind: Some(OpKind::ResR8(6, Register::B)) }),
    0xb1 => Some(Opcode { size_bytes: 1, kind: Some(OpKind::ResR8(6, Register::C)) }),
    0xb2 => Some(Opcode { size_bytes: 1, kind: Some(OpKind::ResR8(6, Register::D)) }),
    0xb3 => Some(Opcode { size_bytes: 1, kind: Some(OpKind::ResR8(6, Register::E)) }),
    0xb4 => Some(Opcode { size_bytes: 1, kind: Some(OpKind::ResR8(6, Register::H)) }),
    0xb5 => Some(Opcode { size_bytes: 1, kind: Some(OpKind::ResR8(6, Register::L)) }),
    0xb6 => Some(Opcode { size_bytes: 1, kind: Some(OpKind::ResIndHl(6)) }),
    0xb7 => Some(Opcode { size_bytes: 1, kind: Some(OpKind::ResR8(6, Register::A)) }),
    0xb8 => Some(Opcode { size_bytes: 1, kind: Some(OpKind::ResR8(7, Register::B)) }),
    0xb9 => Some(Opcode { size_bytes: 1, kind: Some(OpKind::ResR8(7, Register::C)) }),
    0xba => Some(Opcode { size_bytes: 1, kind: Some(OpKind::ResR8(7, Register::D)) }),
    0xbb => Some(Opcode { size_bytes: 1, kind: Some(OpKind::ResR8(7, Register::E)) }),
    0xbc => Some(Opcode { size_bytes: 1, kind: Some(OpKind::ResR8(7, Register::H)) }),
    0xbd => Some(Opcode { size_bytes: 1, kind: Some(OpKind::ResR8(7, Register::L)) }),
    0xbe => Some(Opcode { size_bytes: 1, kind: Some(OpKind::ResIndHl(7)) }),
    0xbf => Some(Opcode { size_bytes: 1, kind: Some(OpKind::ResR8(7, Register::A)) }),
        _ => None,
    }
}

pub open spec fn spec_decode_prefixed_rowc(byte: u8) -> Option<Opcode> {
    match byte {
    0xc0 => Some(Opcode { size_bytes: 1, kind: None }),
    0xc1 => Some(Opcode { size_bytes: 1, kind: None }),
    0xc2 => Some(Opcode { size_bytes: 1, kind: None }),
    0xc3 => Some(Opcode { size_bytes: 1, kind: None }),
    0xc4 => Some(Opcode { size_bytes: 1, kind: None }),
    0xc5 => Some(Opcode { size_bytes: 1, kind: None }),
    0xc6 => Some(Opcode { size_bytes: 1, kind: Some(OpKind::SetIndHl(0)) }),
    0xc7 => Some(Opcode { size_bytes: 1, kind: None }),
    0xc8 => Some(Opcode { size_bytes: 1, kind: None }),
    0xc9 => Some(Opcode { size_bytes: 1, kind: None }),
    0xca => Some(Opcode { size_bytes: 1, kind: None }),
    0xcb => Some(Opcode { size_bytes: 1, kind: None }),
    0xcc => Some(Opcode { size_bytes: 1, kind: None }),
    0xcd => Some(Opcode { size_bytes: 1, kind: None }),
    0xce => Some(Opcode { size_bytes: 1, kind: Some(OpKind::SetIndHl(1)) }),
    0xcf => Some(Opcode { size_bytes: 1, kind: None }),
        _ => None,
    }
}

pub open spec fn spec_decode_prefixed_rowd(byte: u8) -> Option<Opcode> {
    match byte {
    0xd0 => Some(Opcode { size_bytes: 1, kind: None }),
    0xd1 => Some(Opcode { size_bytes: 1, kind: None }),
    0xd2 => Some(Opcode { size_bytes: 1, kind: None }),
    0xd3 => Some(Opcode { size_bytes: 1, kind: None }),
    0xd4 => Some(Opcode { size_bytes: 1, kind: None }),
    0xd5 => Some(Opcode { size_bytes: 1, kind: None }),
    0xd6 => Some(Opcode { size_bytes: 1, kind: Some(OpKind::SetIndHl(2)) }),
    0xd7 => Some(Opcode { size_bytes: 1, kind: None }),
    0xd8 => Some(Opcode { size_bytes: 1, kind: None }),
    0xd9 => Some(Opcode { size_bytes: 1, kind: None }),
    0xda => Some(Opcode { size_bytes: 1, kind: None }),
    0xdb => Some(Opcode { size_bytes: 1, kind: None }),
    0xdc => Some(Opcode { size_bytes: 1, kind: None }),
    0xdd => Some(Opcode { size_bytes: 1, kind: None }),
    0xde => Some(Opcode { size_bytes: 1, kind: Some(OpKind::SetIndHl(3)) }),
    0xdf => Some(Opcode { size_bytes: 1, kind: None }),
        _ => None,
    }
}

pub open spec fn spec_decode_prefixed_rowe(byte: u8) -> Option<Opcode> {
    match byte {
    0xe0 => Some(Opcode { size_bytes: 1, kind: None }),
    0xe1 => Some(Opcode { size_bytes: 1, kind: None }),
    0xe2 => Some(Opcode { size_bytes: 1, kind: None }),
    0xe3 => Some(Opcode { size_bytes: 1, kind: None }),
    0xe4 => Some(Opcode { size_bytes: 1, kind: None }),
    0xe5 => Some(Opcode { size_bytes: 1, kind: None }),
    0xe6 => Some(Opcode { size_bytes: 1, kind: Some(OpKind::SetIndHl(4)) }),
    0xe7 => Some(Opcode { size_bytes: 1, kind: None }),
    0xe8 => Some(Opcode { size_bytes: 1, kind: None }),
    0xe9 => Some(Opcode { size_bytes: 1, kind: None }),
    0xea => Some(Opcode { size_bytes: 1, kind: None }),
    0xeb => Some(Opcode { size_bytes: 1, kind: None }),
    0xec => Some(Opcode { size_bytes: 1, kind: None }),
    0xed => Some(Opcode { size_bytes: 1, kind: None }),
    0xee => Some(Opcode { size_bytes: 1, kind: Some(OpKind::SetIndHl(5)) }),
    0xef => Some(Opcode { size_bytes: 1, kind: None }),
        _ => None,
    }
}

pub open spec fn spec_decode_prefixed_rowf(byte: u8) -> Option<Opcode> {
    match byte {
    0xf0 => Some(Opcode { size_bytes: 1, kind: None }),
    0xf1 => Some(Opcode { size_bytes: 1, kind: None }),
    0xf2 => Some(Opcode { size_bytes: 1, kind: None }),
    0xf3 => Some(Opcode { size_bytes: 1, kind: None }),
    0xf4 => Some(Opcode { size_bytes: 1, kind: None }),
    0xf5 => Some(Opcode { size_bytes: 1, kind: None }),
    0xf6 => Some(Opcode { size_bytes: 1, kind: Some(OpKind::SetIndHl(6)) }),
    0xf7 => Some(Opcode { size_bytes: 1, kind: None }),
    0xf8 => Some(Opcode { size_bytes: 1, kind: None }),
    0xf9 => Some(Opcode { size_bytes: 1, kind: None }),
    0xfa => Some(Opcode { size_bytes: 1, kind: None }),
    0xfb => Some(Opcode { size_bytes: 1, kind: None }),
    0xfc => Some(Opcode { size_bytes: 1, kind: None }),
    0xfd => Some(Opcode { size_bytes: 1, kind: None }),
    0xfe => Some(Opcode { size_bytes: 1, kind: Some(OpKind::SetIndHl(7)) }),
    0xff => Some(Opcode { size_bytes: 1, kind: None }),
        _ => None,
    }
}

pub open spec fn spec_decode_prefixed(byte: u8) -> Option<Opcode> {
    if byte < 0x10 { spec_decode_prefixed_row0(byte) }
    else if byte < 0x20 { spec_decode_prefixed_row1(byte) }
    else if byte < 0x30 { spec_decode_prefixed_row2(byte) }
    else if byte < 0x40 { spec_decode_prefixed_row3(byte) }
    else if byte < 0x50 { spec_decode_prefixed_row4(byte) }
    else if byte < 0x60 { spec_decode_prefixed_row5(byte) }
    else if byte < 0x70 { spec_decode_prefixed_row6(byte) }
    else if byte < 0x80 { spec_decode_prefixed_row7(byte) }
    else if byte < 0x90 { spec_decode_prefixed_row8(byte) }
    else if byte < 0xa0 { spec_decode_prefixed_row9(byte) }
    else if byte < 0xb0 { spec_decode_prefixed_rowa(byte) }
    else if byte < 0xc0 { spec_decode_prefixed_rowb(byte) }
    else if byte < 0xd0 { spec_decode_prefixed_rowc(byte) }
    else if byte < 0xe0 { spec_decode_prefixed_rowd(byte) }
    else if byte < 0xf0 { spec_decode_prefixed_rowe(byte) }
    else { spec_decode_prefixed_rowf(byte) }
}

/// Decodes one lead byte through the unprefixed table. The eleven
/// unassigned slots of the instruction set decode to nothing.
#[verifier::rlimit(100)]
pub fn decode(byte: u8) -> (r: Option<Opcode>)
    ensures
        r == spec_decode(byte),
        (r matches Some(op) ==> op.wf()),
        (r is None) <==> (byte == 0xd3 || byte == 0xdb || byte == 0xdd || byte == 0xe3 || byte == 0xe4 || byte == 0xeb || byte == 0xec || byte == 0xed || byte == 0xf4 || byte == 0xfc || byte == 0xfd),
{
    match byte {
        0x00 => Some(Opcode { size_bytes: 1, kind: Some(OpKind::Nop) }),
        0x01 => Some(Opcode { size_bytes: 3, kind: Some(OpKind::LdR16N16(RegisterWide::BC)) }),
        0x02 => Some(Opcode { size_bytes: 1, kind: Some(OpKind::LdIndR16R8(RegisterWide::BC, Register::A, IndirectAddressingMode::Retain)) }),
        0x03 => Some(Opcode { size_bytes: 1, kind: Some(OpKind::IncR16(RegisterWide::BC)) }),
        0x04 => Some(Opcode { size_bytes: 1, kind: Some(OpKind::IncR8(Register::B)) }),
        0x05 => Some(Opcode { size_bytes: 1, kind: Some(OpKind::DecR8(Register::B)) }),
        0x06 => Some(Opcode { size_bytes: 2, kind: Some(OpKind::LdR8N8(Register::B)) }),
        0x07 => Some(Opcode { size_bytes: 1, kind: Some(OpKind::Rlca) }),
        0x08 => Some(Opcode { size_bytes: 3, kind: Some(OpKind::LdA16Sp) }),
        0x09 => Some(Opcode { size_bytes: 1, kind: Some(OpKind::AddHlR16(RegisterWide::BC)) }),
        0x0a => Some(Opcode { size_bytes: 1, kind: Some(OpKind::LdR8IndR16(Register::A, RegisterWide::BC, IndirectAddressingMode::Retain)) }),
        0x0b => Some(Opcode { size_bytes: 1, kind: Some(OpKind::DecR16(RegisterWide::BC)) }),
        0x0c => Some(Opcode { size_bytes: 1, kind: Some(OpKind::IncR8(Register::C)) }),
        0x0d => Some(Opcode { size_bytes: 1, kind: Some(OpKind::DecR8(Register::C)) }),
        0x0e => Some(Opcode { size_bytes: 2, kind: Some(OpKind::LdR8N8(Register::C)) }),
        0x0f => Some(Opcode { size_bytes: 1, kind: None }),
        0x10 => Some(Opcode { size_bytes: 2, kind: Some(OpKind::Stop) }),
        0x11 => Some(Opcode { size_bytes: 3, kind: Some(OpKind::LdR16N16(RegisterWide::DE)) }),
        0x12 => Some(Opcode { size_bytes: 1, kind: Some(OpKind::LdIndR16R8(RegisterWide::DE, Register::A, IndirectAddressingMode::Retain)) }),
        0x13 => Some(Opcode { size_bytes: 1, kind: Some(OpKind::IncR16(RegisterWide::DE)) }),
        0x14 => Some(Opcode { size_bytes: 1, kind: Some(OpKind::IncR8(Register::D)) }),
        0x15 => Some(Opcode { size_bytes: 1, kind: Some(OpKind::DecR8(Register::D)) }),
        0x16 => Some(Opcode { size_bytes: 2, kind: Some(OpKind::LdR8N8(Register::D)) }),
        0x17 => Some(Opcode { size_bytes: 1, kind: Some(OpKind::Rla) }),
        0x18 => Some(Opcode { size_bytes: 2, kind: Some(OpKind::Jr) }),
        0x19 => Some(Opcode { size_bytes: 1, kind: Some(OpKind::AddHlR16(RegisterWide::DE)) }),
        0x1a => Some(Opcode { size_bytes: 1, kind: Some(OpKind::LdR8IndR16(Register::A, RegisterWide::DE, IndirectAddressingMode::Retain)) }),
        0x1b => Some(Opcode { size_bytes: 1, kind: Some(OpKind::DecR16(RegisterWide::DE)) }),
        0x1c => Some(Opcode { size_bytes: 1, kind: Some(OpKind::IncR8(Register::E)) }),
        0x1d => Some(Opcode { size_bytes: 1, kind: Some(OpKind::DecR8(Register::E)) }),
        0x1e => Some(Opcode { size_bytes: 2, kind: Some(OpKind::LdR8N8(Register::E)) }),
        0x1f => Some(Opcode { size_bytes: 1, kind: Some(OpKind::Rra) }),
        0x20 => Some(Opcode { size_bytes: 2, kind: Some(OpKind::JrCond(Cond::NotZero)) }),
        0x21 => Some(Opcode { size_bytes: 3, kind: Some(OpKind::LdR16N16(RegisterWide::HL)) }),
        0x22 => Some(Opcode { size_bytes: 1, kind: Some(OpKind::LdIndR16R8(RegisterWide::HL, Register::A, IndirectAddressingMode::Increment)) }),
        0x23 => Some(Opcode { size_bytes: 1, kind: Some(OpKind::IncR16(RegisterWide::HL)) }),
        0x24 => Some(Opcode { size_bytes: 1, kind: Some(OpKind::IncR8(Register::H)) }),
        0x25 => Some(Opcode { size_bytes: 1, kind: Some(OpKind::DecR8(Register::H)) }),
        0x26 => Some(Opcode { size_bytes: 2, kind: Some(OpKind::LdR8N8(Register::H)) }),
        0x27 => Some(Opcode { size_bytes: 1, kind: None }),
        0x28 => Some(Opcode { size_bytes: 2, kind: Some(OpKind::JrCond(Cond::Zero)) }),
        0x29 => Some(Opcode { size_bytes: 1, kind: Some(OpKind::AddHlR16(RegisterWide::HL)) }),
        0x2a => Some(Opcode { size_bytes: 1, kind: Some(OpKind::LdR8IndR16(Register::A, RegisterWide::HL, IndirectAddressingMode::Increment)) }),
        0x2b => Some(Opcode { size_bytes: 1, kind: Some(OpKind::DecR16(RegisterWide::HL)) }),
        0x2c => Some(Opcode { size_bytes: 1, kind: Some(OpKind::IncR8(Register::L)) }),
        0x2d => Some(Opcode { size_bytes: 1, kind: Some(OpKind::DecR8(Register::L)) }),
        0x2e => Some(Opcode { size_bytes: 2, kind: Some(OpKind::LdR8N8(Register::L)) }),
        0x2f => Some(Opcode { size_bytes: 1, kind: Some(OpKind::Cpl) }),
        0x30 => Some(Opcode { size_bytes: 2, kind: Some(OpKind::JrCond(Cond::NotCarry)) }),
        0x31 => Some(Opcode { size_bytes: 3, kind: Some(OpKind::LdR16N16(RegisterWide::SP)) }),
        0x32 => Some(Opcode { size_bytes: 1, kind: Some(OpKind::LdIndR16R8(RegisterWide::HL, Register::A, IndirectAddressingMode::Decrement)) }),
        0x33 => Some(Opcode { size_bytes: 1, kind: Some(OpKind::IncR16(RegisterWide::SP)) }),
        0x34 => Some(Opcode { size_bytes: 1, kind: Some(OpKind::IncIndHl) }),
        0x35 => Some(Opcode { size_bytes: 1, kind: Some(OpKind::DecIndHl) }),
        0x36 => Some(Opcode { size_bytes: 2, kind: Some(OpKind::LdIndHlN8) }),
        0x37 => Some(Opcode { size_bytes: 1, kind: None }),
        0x38 => Some(Opcode { size_bytes: 2, kind: Some(OpKind::JrCond(Cond::Carry)) }),
        0x39 => Some(Opcode { size_bytes: 1, kind: Some(OpKind::AddHlR16(RegisterWide::SP)) }),
        0x3a => Some(Opcode { size_bytes: 1, kind: Some(OpKind::LdR8IndR16(Register::A, RegisterWide::HL, IndirectAddressingMode::Decrement)) }),
        0x3b => Some(Opcode { size_bytes: 1, kind: Some(OpKind::DecR16(RegisterWide::SP)) }),
        0x3c => Some(Opcode { size_bytes: 1, kind: Some(OpKind::IncR8(Register::A)) }),
        0x3d => Some(Opcode { size_bytes: 1, kind: Some(OpKind::DecR8(Register::A)) }),
        0x3e => Some(Opcode { size_bytes: 2, kind: Some(OpKind::LdR8N8(Register::A)) }),
        0x3f => Some(Opcode { size_bytes: 1, kind: None }),
        0x40 => Some(Opcode { size_bytes: 1, kind: Some(OpKind::LdR8R8(Register::B, Register::B)) }),
        0x41 => Some(Opcode { size_bytes: 1, kind: Some(OpKind::LdR8R8(Register::B, Register::C)) }),
        0x42 => Some(Opcode { size_bytes: 1, kind: Some(OpKind::LdR8R8(Register::B, Register::D)) }),
        0x43 => Some(Opcode { size_bytes: 1, kind: Some(OpKind::LdR8R8(Register::B, Register::E)) }),
        0x44 => Some(Opcode { size_bytes: 1, kind: Some(OpKind::LdR8R8(Register::B, Register::H)) }),
        0x45 => Some(Opcode { size_bytes: 1, kind: Some(OpKind::LdR8R8(Register::B, Register::L)) }),
        0x46 => Some(Opcode { size_bytes: 1, kind: Some(OpKind::LdR8IndR16(Register::B, RegisterWide::HL, IndirectAddressingMode::Retain)) }),
        0x47 => Some(Opcode { size_bytes: 1, kind: Some(OpKind::LdR8R8(Register::B, Register::A)) }),
        0x48 => Some(Opcode { size_bytes: 1, kind: Some(OpKind::LdR8R8(Register::C, Register::B)) }),
        0x49 => Some(Opcode { size_bytes: 1, kind: Some(OpKind::LdR8R8(Register::C, Register::C)) }),
        0x4a => Some(Opcode { size_bytes: 1, kind: Some(OpKind::LdR8R8(Register::C, Register::D)) }),
        0x4b => Some(Opcode { size_bytes: 1, kind: Some(OpKind::LdR8R8(Register::C, Register::E)) }),
        0x4c => Some(Opcode { size_bytes: 1, kind: Some(OpKind::LdR8R8(Register::C, Register::H)) }),
        0x4d => Some(Opcode { size_bytes: 1, kind: Some(OpKind::LdR8R8(Register::C, Register::L)) }),
        0x4e => Some(Opcode { size_bytes: 1, kind: Some(OpKind::LdR8IndR16(Register::C, RegisterWide::HL, IndirectAddressingMode::Retain)) }),
        0x4f => Some(Opcode { size_bytes: 1, kind: Some(OpKind::LdR8R8(Register::C, Register::A)) }),
        0x50 => Some(Opcode { size_bytes: 1, kind: Some(OpKind::LdR8R8(Register::D, Register::B)) }),
        0x51 => Some(Opcode { size_bytes: 1, kind: Some(OpKind::LdR8R8(Register::D, Register::C)) }),
        0x52 => Some(Opcode { size_bytes: 1, kind: Some(OpKind::LdR8R8(Register::D, Register::D)) }),
        0x53 => Some(Opcode { size_bytes: 1, kind: Some(OpKind::LdR8R8(Register::D, Register::E)) }),
        0x54 => Some(Opcode { size_bytes: 1, kind: Some(OpKind::LdR8R8(Register::D, Register::H)) }),
        0x55 => Some(Opcode { size_bytes: 1, kind: Some(OpKind::LdR8R8(Register::D, Register::L)) }),
        0x56 => Some(Opcode { size_bytes: 1, kind: Some(OpKind::LdR8IndR16(Register::D, RegisterWide::HL, IndirectAddressingMode::Retain)) }),
        0x57 => Some(Opcode { size_bytes: 1, kind: Some(OpKind::LdR8R8(Register::D, Register::A)) }),
        0x58 => Some(Opcode { size_bytes: 1, kind: Some(OpKind::LdR8R8(Register::E, Register::B)) }),
        0x59 => Some(Opcode { size_bytes: 1, kind: Some(OpKind::LdR8R8(Register::E, Register::C)) }),
        0x5a => Some(Opcode { size_bytes: 1, kind: Some(OpKind::LdR8R8(Register::E, Register::D)) }),
        0x5b => Some(Opcode { size_bytes: 1, kind: Some(OpKind::LdR8R8(Register::E, Register::E)) }),
        0x5c => Some(Opcode { size_bytes: 1, kind: Some(OpKind::LdR8R8(Register::E, Register::H)) }),
        0x5d => Some(Opcode { size_bytes: 1, kind: Some(OpKind::LdR8R8(Register::E, Register::L)) }),
        0x5e => Some(Opcode { size_bytes: 1, kind: Some(OpKind::LdR8IndR16(Register::E, RegisterWide::HL, IndirectAddressingMode::Retain)) }),
        0x5f => Some(Opcode { size_bytes: 1, kind: Some(OpKind::LdR8R8(Register::E, Register::A)) }),
        0x60 => Some(Opcode { size_bytes: 1, kind: Some(OpKind::LdR8R8(Register::H, Register::B)) }),
        0x61 => Some(Opcode { size_bytes: 1, kind: Some(OpKind::LdR8R8(Register::H, Register::C)) }),
        0x62 => Some(Opcode { size_bytes: 1, kind: Some(OpKind::LdR8R8(Register::H, Register::D)) }),
        0x63 => Some(Opcode { size_bytes: 1, kind: Some(OpKind::LdR8R8(Register::H, Register::E)) }),
        0x64 => Some(Opcode { size_bytes: 1, kind: Some(OpKind::LdR8R8(Register::H, Register::H)) }),
        0x65 => Some(Opcode { size_bytes: 1, kind: Some(OpKind::LdR8R8(Register::H, Register::L)) }),
        0x66 => Some(Opcode { size_bytes: 1, kind: Some(OpKind::LdR8IndR16(Register::H, RegisterWide::HL, IndirectAddressingMode::Retain)) }),
        0x67 => Some(Opcode { size_bytes: 1, kind: Some(OpKind::LdR8R8(Register::H, Register::A)) }),
        0x68 => Some(Opcode { size_bytes: 1, kind: Some(OpKind::LdR8R8(Register::L, Register::B)) }),
        0x69 => Some(Opcode { size_bytes: 1, kind: Some(OpKind::LdR8R8(Register::L, Register::C)) }),
        0x6a => Some(Opcode { size_bytes: 1, kind: Some(OpKind::LdR8R8(Register::L, Register::D)) }),
        0x6b => Some(Opcode { size_bytes: 1, kind: Some(OpKind::LdR8R8(Register::L, Register::E)) }),
        0x6c => Some(Opcode { size_bytes: 1, kind: Some(OpKind::LdR8R8(Register::L, Register::H)) }),
        0x6d => Some(Opcode { size_bytes: 1, kind: Some(OpKind::LdR8R8(Register::L, Register::L)) }),
        0x6e => Some(Opcode { size_bytes: 1, kind: Some(OpKind::LdR8IndR16(Register::L, RegisterWide::HL, IndirectAddressingMode::Retain)) }),
        0x6f => Some(Opcode { size_bytes: 1, kind: Some(OpKind::LdR8R8(Register::L, Register::A)) }),
        0x70 => Some(Opcode { size_bytes: 1, kind: Some(OpKind::LdIndR16R8(RegisterWide::HL, Register::B, IndirectAddressingMode::Retain)) }),
        0x71 => Some(Opcode { size_bytes: 1, kind: Some(OpKind::LdIndR16R8(RegisterWide::HL, Register::C, IndirectAddressingMode::Retain)) }),
        0x72 => Some(Opcode { size_bytes: 1, kind: Some(OpKind::LdIndR16R8(RegisterWide::HL, Register::D, IndirectAddressingMode::Retain)) }),
        0x73 => Some(Opcode { size_bytes: 1, kind: Some(OpKind::LdIndR16R8(RegisterWide::HL, Register::E, IndirectAddressingMode::Retain)) }),
        0x74 => Some(Opcode { size_bytes: 1, kind: Some(OpKind::LdIndR16R8(RegisterWide::HL, Register::H, IndirectAddressingMode::Retain)) }),
        0x75 => Some(Opcode { size_bytes: 1, kind: Some(OpKind::LdIndR16R8(RegisterWide::HL, Register::L, IndirectAddressingMode::Retain)) }),
        0x76 => Some(Opcode { size_bytes: 1, kind: None }),
        0x77 => Some(Opcode { size_bytes: 1, kind: Some(OpKind::LdIndR16R8(RegisterWide::HL, Register::A, IndirectAddressingMode::Retain)) }),
        0x78 => Some(Opcode { size_bytes: 1, kind: Some(OpKind::LdR8R8(Register::A, Register::B)) }),
        0x79 => Some(Opcode { size_bytes: 1, kind: Some(OpKind::LdR8R8(Register::A, Register::C)) }),
        0x7a => Some(Opcode { size_bytes: 1, kind: Some(OpKind::LdR8R8(Register::A, Register::D)) }),
        0x7b => Some(Opcode { size_bytes: 1, kind: Some(OpKind::LdR8R8(Register::A, Register::E)) }),
        0x7c => Some(Opcode { size_bytes: 1, kind: Some(OpKind::LdR8R8(Register::A, Register::H)) }),
        0x7d => Some(Opcode { size_bytes: 1, kind: Some(OpKind::LdR8R8(Register::A, Register::L)) }),
        0x7e => Some(Opcode { size_bytes: 1, kind: Some(OpKind::LdR8IndR16(Register::A, RegisterWide::HL, IndirectAddressingMode::Retain)) }),
        0x7f => Some(Opcode { size_bytes: 1, kind: Some(OpKind::LdR8R8(Register::A, Register::A)) }),
        0x80 => Some(Opcode { size_bytes: 1, kind: Some(OpKind::AluR8(AluOp::Add, Register::B)) }),
        0x81 => Some(Opcode { size_bytes: 1, kind: Some(OpKind::AluR8(AluOp::Add, Register::C)) }),
        0x82 => Some(Opcode { size_bytes: 1, kind: Some(OpKind::AluR8(AluOp::Add, Register::D)) }),
        0x83 => Some(Opcode { size_bytes: 1, kind: Some(OpKind::AluR8(AluOp::Add, Register::E)) }),
        0x84 => Some(Opcode { size_bytes: 1, kind: Some(OpKind::AluR8(AluOp::Add, Register::H)) }),
        0x85 => Some(Opcode { size_bytes: 1, kind: Some(OpKind::AluR8(AluOp::Add, Register::L)) }),
        0x86 => Some(Opcode { size_bytes: 1, kind: Some(OpKind::AluIndHl(AluOp::Add)) }),
        0x87 => Some(Opcode { size_bytes: 1, kind: Some(OpKind::AluR8(AluOp::Add, Register::A)) }),
        0x88 => Some(Opcode { size_bytes: 1, kind: Some(OpKind::AluR8(AluOp::Adc, Register::B)) }),
        0x89 => Some(Opcode { size_bytes: 1, kind: Some(OpKind::AluR8(AluOp::Adc, Register::C)) }),
        0x8a => Some(Opcode { size_bytes: 1, kind: Some(OpKind::AluR8(AluOp::Adc, Register::D)) }),
        0x8b => Some(Opcode { size_bytes: 1, kind: Some(OpKind::AluR8(AluOp::Adc, Register::E)) }),
        0x8c => Some(Opcode { size_bytes: 1, kind: Some(OpKind::AluR8(AluOp::Adc, Register::H)) }),
        0x8d => Some(Opcode { size_bytes: 1, kind: Some(OpKind::AluR8(AluOp::Adc, Register::L)) }),
        0x8e => Some(Opcode { size_bytes: 1, kind: Some(OpKind::AluIndHl(AluOp::Adc)) }),
        0x8f => Some(Opcode { size_bytes: 1, kind: Some(OpKind::AluR8(AluOp::Adc, Register::A)) }),
        0x90 => Some(Opcode { size_bytes: 1, kind: Some(OpKind::AluR8(AluOp::Sub, Register::B)) }),
        0x91 => Some(Opcode { size_bytes: 1, kind: Some(OpKind::AluR8(AluOp::Sub, Register::C)) }),
        0x92 => Some(Opcode { size_bytes: 1, kind: Some(OpKind::AluR8(AluOp::Sub, Register::D)) }),
        0x93 => Some(Opcode { size_bytes: 1, kind: Some(OpKind::AluR8(AluOp::Sub, Register::E)) }),
        0x94 => Some(Opcode { size_bytes: 1, kind: Some(OpKind::AluR8(AluOp::Sub, Register::H)) }),
        0x95 => Some(Opcode { size_bytes: 1, kind: Some(OpKind::AluR8(AluOp::Sub, Register::L)) }),
        0x96 => Some(Opcode { size_bytes: 1, kind: None }),
        0x97 => Some(Opcode { size_bytes: 1, kind: Some(OpKind::AluR8(AluOp::Sub, Register::A)) }),
        0x98 => Some(Opcode { size_bytes: 1, kind: Some(OpKind::AluR8(AluOp::Sbc, Register::B)) }),
        0x99 => Some(Opcode { size_bytes: 1, kind: Some(OpKind::AluR8(AluOp::Sbc, Register::C)) }),
        0x9a => Some(Opcode { size_bytes: 1, kind: Some(OpKind::AluR8(AluOp::Sbc, Register::D)) }),
        0x9b => Some(Opcode { size_bytes: 1, kind: Some(OpKind::AluR8(AluOp::Sbc, Register::E)) }),
        0x9c => Some(Opcode { size_bytes: 1, kind: Some(OpKind::AluR8(AluOp::Sbc, Register::H)) }),
        0x9d => Some(Opcode { size_bytes: 1, kind: Some(OpKind::AluR8(AluOp::Sbc, Register::L)) }),
        0x9e => Some(Opcode { size_bytes: 1, kind: None }),
        0x9f => Some(Opcode { size_bytes: 1, kind: Some(OpKind::AluR8(AluOp::Sbc, Register::A)) }),
        0xa0 => Some(Opcode { size_bytes: 1, kind: Some(OpKind::AluR8(AluOp::And, Register::B)) }),
        0xa1 => Some(Opcode { size_bytes: 1, kind: Some(OpKind::AluR8(AluOp::And, Register::C)) }),
        0xa2 => Some(Opcode { size_bytes: 1, kind: Some(OpKind::AluR8(AluOp::And, Register::D)) }),
        0xa3 => Some(Opcode { size_bytes: 1, kind: Some(OpKind::AluR8(AluOp::And, Register::E)) }),
        0xa4 => Some(Opcode { size_bytes: 1, kind: Some(OpKind::AluR8(AluOp::And, Register::H)) }),
        0xa5 => Some(Opcode { size_bytes: 1, kind: Some(OpKind::AluR8(AluOp::And, Register::L)) }),
        0xa6 => Some(Opcode { size_bytes: 1, kind: None }),
        0xa7 => Some(Opcode { size_bytes: 1, kind: Some(OpKind::AluR8(AluOp::And, Register::A)) }),
        0xa8 => Some(Opcode { size_bytes: 1, kind: Some(OpKind::AluR8(AluOp::Xor, Register::B)) }),
        0xa9 => Some(Opcode { size_bytes: 1, kind: Some(OpKind::AluR8(AluOp::Xor, Register::C)) }),
        0xaa => Some(Opcode { size_bytes: 1, kind: Some(OpKind::AluR8(AluOp::Xor, Register::D)) }),
        0xab => Some(Opcode { size_bytes: 1, kind: Some(OpKind::AluR8(AluOp::Xor, Register::E)) }),
        0xac => Some(Opcode { size_bytes: 1, kind: Some(OpKind::AluR8(AluOp::Xor, Register::H)) }),
        0xad => Some(Opcode { size_bytes: 1, kind: Some(OpKind::AluR8(AluOp::Xor, Register::L)) }),
        0xae => Some(Opcode { size_bytes: 1, kind: Some(OpKind::AluIndHl(AluOp::Xor)) }),
        0xaf => Some(Opcode { size_bytes: 1, kind: Some(OpKind::AluR8(AluOp::Xor, Register::A)) }),
        0xb0 => Some(Opcode { size_bytes: 1, kind: Some(OpKind::AluR8(AluOp::Or, Register::B)) }),
        0xb1 => Some(Opcode { size_bytes: 1, kind: Some(OpKind::AluR8(AluOp::Or, Register::C)) }),
        0xb2 => Some(Opcode { size_bytes: 1, kind: Some(OpKind::AluR8(AluOp::Or, Register::D)) }),
        0xb3 => Some(Opcode { size_bytes: 1, kind: Some(OpKind::AluR8(AluOp::Or, Register::E)) }),
        0xb4 => Some(Opcode { size_bytes: 1, kind: Some(OpKind::AluR8(AluOp::Or, Register::H)) }),
        0xb5 => Some(Opcode { size_bytes: 1, kind: Some(OpKind::AluR8(AluOp::Or, Register::L)) }),
        0xb6 => Some(Opcode { size_bytes: 1, kind: Some(OpKind::AluIndHl(AluOp::Or)) }),
        0xb7 => Some(Opcode { size_bytes: 1, kind: Some(OpKind::AluR8(AluOp::Or, Register::A)) }),
        0xb8 => Some(Opcode { size_bytes: 1, kind: Some(OpKind::AluR8(AluOp::Cp, Register::B)) }),
        0xb9 => Some(Opcode { size_bytes: 1, kind: Some(OpKind::AluR8(AluOp::Cp, Register::C)) }),
        0xba => Some(Opcode { size_bytes: 1, kind: Some(OpKind::AluR8(AluOp::Cp, Register::D)) }),
        0xbb => Some(Opcode { size_bytes: 1, kind: Some(OpKind::AluR8(AluOp::Cp, Register::E)) }),
        0xbc => Some(Opcode { size_bytes: 1, kind: Some(OpKind::AluR8(AluOp::Cp, Register::H)) }),
        0xbd => Some(Opcode { size_bytes: 1, kind: Some(OpKind::AluR8(AluOp::Cp, Register::L)) }),
        0xbe => Some(Opcode { size_bytes: 1, kind: Some(OpKind::AluIndHl(AluOp::Cp)) }),
        0xbf => Some(Opcode { size_bytes: 1, kind: Some(OpKind::AluR8(AluOp::Cp, Register::A)) }),
        0xc0 => Some(Opcode { size_bytes: 1, kind: Some(OpKind::RetCond(Cond::NotZero)) }),
        0xc1 => Some(Opcode { size_bytes: 1, kind: Some(OpKind::Pop(RegisterWide::BC)) }),
        0xc2 => Some(Opcode { size_bytes: 3, kind: Some(OpKind::JpCond(Cond::NotZero)) }),
        0xc3 => Some(Opcode { size_bytes: 3, kind: Some(OpKind::Jp) }),
        0xc4 => Some(Opcode { size_bytes: 3, kind: Some(OpKind::CallCond(Cond::NotZero)) }),
        0xc5 => Some(Opcode { size_bytes: 1, kind: Some(OpKind::Push(RegisterWide::BC)) }),
        0xc6 => Some(Opcode { size_bytes: 2, kind: Some(OpKind::AluN8(AluOp::Add)) }),
        0xc7 => Some(Opcode { size_bytes: 1, kind: Some(OpKind::Rst(0x00)) }),
        0xc8 => Some(Opcode { size_bytes: 1, kind: Some(OpKind::RetCond(Cond::Zero)) }),
        0xc9 => Some(Opcode { size_bytes: 1, kind: Some(OpKind::Ret) }),
        0xca => Some(Opcode { size_bytes: 3, kind: Some(OpKind::JpCond(Cond::Zero)) }),
        0xcb => Some(Opcode { size_bytes: 1, kind: Some(OpKind::Prefix) }),
        0xcc => Some(Opcode { size_bytes: 3, kind: Some(OpKind::CallCond(Cond::Zero)) }),
        0xcd => Some(Opcode { size_bytes: 3, kind: Some(OpKind::Call) }),
        0xce => Some(Opcode { size_bytes: 2, kind: Some(OpKind::AluN8(AluOp::Adc)) }),
        0xcf => Some(Opcode { size_bytes: 1, kind: Some(OpKind::Rst(0x08)) }),
        0xd0 => Some(Opcode { size_bytes: 1, kind: Some(OpKind::RetCond(Cond::NotCarry)) }),
        0xd1 => Some(Opcode { size_bytes: 1, kind: Some(OpKind::Pop(RegisterWide::DE)) }),
        0xd2 => Some(Opcode { size_bytes: 3, kind: Some(OpKind::JpCond(Cond::NotCarry)) }),
        0xd4 => Some(Opcode { size_bytes: 3, kind: Some(OpKind::CallCond(Cond::NotCarry)) }),
        0xd5 => Some(Opcode { size_bytes: 1, kind: Some(OpKind::Push(RegisterWide::DE)) }),
        0xd6 => Some(Opcode { size_bytes: 2, kind: Some(OpKind::AluN8(AluOp::Sub)) }),
        0xd7 => Some(Opcode { size_bytes: 1, kind: Some(OpKind::Rst(0x10)) }),
        0xd8 => Some(Opcode { size_bytes: 1, kind: Some(OpKind::RetCond(Cond::Carry)) }),
        0xd9 => Some(Opcode { size_bytes: 1, kind: Some(OpKind::Reti) }),
        0xda => Some(Opcode { size_bytes: 3, kind: Some(OpKind::JpCond(Cond::Carry)) }),
        0xdc => Some(Opcode { size_bytes: 3, kind: Some(OpKind::CallCond(Cond::Carry)) }),
        0xde => Some(Opcode { size_bytes: 2, kind: Some(OpKind::AluN8(AluOp::Sbc)) }),
        0xdf => Some(Opcode { size_bytes: 1, kind: Some(OpKind::Rst(0x18)) }),
        0xe0 => Some(Opcode { size_bytes: 2, kind: Some(OpKind::LdhA8A) }),
        0xe1 => Some(Opcode { size_bytes: 1, kind: Some(OpKind::Pop(RegisterWide::HL)) }),
        0xe2 => Some(Opcode { size_bytes: 1, kind: Some(OpKind::LdIndCA) }),
        0xe5 => Some(Opcode { size_bytes: 1, kind: Some(OpKind::Push(RegisterWide::HL)) }),
        0xe6 => Some(Opcode { size_bytes: 2, kind: Some(OpKind::AluN8(AluOp::And)) }),
        0xe7 => Some(Opcode { size_bytes: 1, kind: Some(OpKind::Rst(0x20)) }),
        0xe8 => Some(Opcode { size_bytes: 2, kind: Some(OpKind::AddSpE8) }),
        0xe9 => Some(Opcode { size_bytes: 1, kind: Some(OpKind::JpHl) }),
        0xea => Some(Opcode { size_bytes: 3, kind: Some(OpKind::LdA16A) }),
        0xee => Some(Opcode { size_bytes: 2, kind: Some(OpKind::AluN8(AluOp::Xor)) }),
        0xef => Some(Opcode { size_bytes: 1, kind: Some(OpKind::Rst(0x28)) }),
        0xf0 => Some(Opcode { size_bytes: 2, kind: Some(OpKind::LdhAA8) }),
        0xf1 => Some(Opcode { size_bytes: 1, kind: Some(OpKind::Pop(RegisterWide::AF)) }),
        0xf2 => Some(Opcode { size_bytes: 1, kind: None }),
        0xf3 => Some(Opcode { size_bytes: 1, kind: Some(OpKind::Di) }),
        0xf5 => Some(Opcode { size_bytes: 1, kind: Some(OpKind::Push(RegisterWide::AF)) }),
        0xf6 => Some(Opcode { size_bytes: 2, kind: Some(OpKind::AluN8(AluOp::Or)) }),
        0xf7 => Some(Opcode { size_bytes: 1, kind: Some(OpKind::Rst(0x30)) }),
        0xf8 => Some(Opcode { size_bytes: 2, kind: Some(OpKind::LdHlSpE8) }),
        0xf9 => Some(Opcode { size_bytes: 1, kind: Some(OpKind::LdSpHl) }),
        0xfa => Some(Opcode { size_bytes: 3, kind: Some(OpKind::LdAA16) }),
        0xfb => Some(Opcode { size_bytes: 1, kind: Some(OpKind::Ei) }),
        0xfe => Some(Opcode { size_bytes: 2, kind: Some(OpKind::AluN8(AluOp::Cp)) }),
        0xff => Some(Opcode { size_bytes: 1, kind: Some(OpKind::Rst(0x38)) }),
        _ => None,
    }
}

/// Decodes the byte after a CB prefix through the prefixed table; every
/// slot of that table is assigned.
#[verifier::rlimit(100)]
pub fn decode_prefixed(byte: u8) -> (r: Option<Opcode>)
    ensures
        r == spec_decode_prefixed(byte),
        (r matches Some(op) ==> op.wf()),
        r is Some,
{
    match byte {
        0x00 => Some(Opcode { size_bytes: 1, kind: None }),
        0x01 => Some(Opcode { size_bytes: 1, kind: None }),
        0x02 => Some(Opcode { size_bytes: 1, kind: None }),
        0x03 => Some(Opcode { size_bytes: 1, kind: None }),
        0x04 => Some(Opcode { size_bytes: 1, kind: None }),
        0x05 => Some(Opcode { size_bytes: 1, kind: None }),
        0x06 => Some(Opcode { size_bytes: 1, kind: None }),
        0x07 => Some(Opcode { size_bytes: 1, kind: None }),
        0x08 => Some(Opcode { size_bytes: 1, kind: None }),
        0x09 => Some(Opcode { size_bytes: 1, kind: None }),
        0x0a => Some(Opcode { size_bytes: 1, kind: None }),
        0x0b => Some(Opcode { size_bytes: 1, kind: None }),
        0x0c => Some(Opcode { size_bytes: 1, kind: None }),
        0x0d => Some(Opcode { size_bytes: 1, kind: None }),
        0x0e => Some(Opcode { size_bytes: 1, kind: None }),
        0x0f => Some(Opcode { size_bytes: 1, kind: None }),
        0x10 => Some(Opcode { size_bytes: 1, kind: Some(OpKind::RlR8(Register::B)) }),
        0x11 => Some(Opcode { size_bytes: 1, kind: Some(OpKind::RlR8(Register::C)) }),
        0x12 => Some(Opcode { size_bytes: 1, kind: Some(OpKind::RlR8(Register::D)) }),
        0x13 => Some(Opcode { size_bytes: 1, kind: Some(OpKind::RlR8(Register::E)) }),
        0x14 => Some(Opcode { size_bytes: 1, kind: Some(OpKind::RlR8(Register::H)) }),
        0x15 => Some(Opcode { size_bytes: 1, kind: Some(OpKind::RlR8(Register::L)) }),
        0x16 => Some(Opcode { size_bytes: 1, kind: None }),
        0x17 => Some(Opcode { size_bytes: 1, kind: Some(OpKind::RlR8(Register::A)) }),
        0x18 => Some(Opcode { size_bytes: 1, kind: Some(OpKind::RrR8(Register::B)) }),
        0x19 => Some(Opcode { size_bytes: 1, kind: Some(OpKind::RrR8(Register::C)) }),
        0x1a => Some(Opcode { size_bytes: 1, kind: Some(OpKind::RrR8(Register::D)) }),
        0x1b => Some(Opcode { size_bytes: 1, kind: Some(OpKind::RrR8(Register::E)) }),
        0x1c => Some(Opcode { size_bytes: 1, kind: Some(OpKind::RrR8(Register::H)) }),
        0x1d => Some(Opcode { size_bytes: 1, kind: Some(OpKind::RrR8(Register::L)) }),
        0x1e => Some(Opcode { size_bytes: 1, kind: None }),
        0x1f => Some(Opcode { size_bytes: 1, kind: Some(OpKind::RrR8(Register::A)) }),
        0x20 => Some(Opcode { size_bytes: 1, kind: Some(OpKind::SlaR8(Register::B)) }),
        0x21 => Some(Opcode { size_bytes: 1, kind: Some(OpKind::SlaR8(Register::C)) }),
        0x22 => Some(Opcode { size_bytes: 1, kind: Some(OpKind::SlaR8(Register::D)) }),
        0x23 => Some(Opcode { size_bytes: 1, kind: Some(OpKind::SlaR8(Register::E)) }),
        0x24 => Some(Opcode { size_bytes: 1, kind: Some(OpKind::SlaR8(Register::H)) }),
        0x25 => Some(Opcode { size_bytes: 1, kind: Some(OpKind::SlaR8(Register::L)) }),
        0x26 => Some(Opcode { size_bytes: 1, kind: None }),
        0x27 => Some(Opcode { size_bytes: 1, kind: Some(OpKind::SlaR8(Register::A)) }),
        0x28 => Some(Opcode { size_bytes: 1, kind: None }),
        0x29 => Some(Opcode { size_bytes: 1, kind: None }),
        0x2a => Some(Opcode { size_bytes: 1, kind: None }),
        0x2b => Some(Opcode { size_bytes: 1, kind: None }),
        0x2c => Some(Opcode { size_bytes: 1, kind: None }),
        0x2d => Some(Opcode { size_bytes: 1, kind: None }),
        0x2e => Some(Opcode { size_bytes: 1, kind: None }),
        0x2f => Some(Opcode { size_bytes: 1, kind: None }),
        0x30 => Some(Opcode { size_bytes: 1, kind: Some(OpKind::SwapR8(Register::B)) }),
        0x31 => Some(Opcode { size_bytes: 1, kind: Some(OpKind::SwapR8(Register::C)) }),
        0x32 => Some(Opcode { size_bytes: 1, kind: Some(OpKind::SwapR8(Register::D)) }),
        0x33 => Some(Opcode { size_bytes: 1, kind: Some(OpKind::SwapR8(Register::E)) }),
        0x34 => Some(Opcode { size_bytes: 1, kind: Some(OpKind::SwapR8(Register::H)) }),
        0x35 => Some(Opcode { size_bytes: 1, kind: Some(OpKind::SwapR8(Register::L)) }),
        0x36 => Some(Opcode { size_bytes: 1, kind: None }),
        0x37 => Some(Opcode { size_bytes: 1, kind: Some(OpKind::SwapR8(Register::A)) }),
        0x38 => Some(Opcode { size_bytes: 1, kind: Some(OpKind::SrlR8(Register::B)) }),
        0x39 => Some(Opcode { size_bytes: 1, kind: Some(OpKind::SrlR8(Register::C)) }),
        0x3a => Some(Opcode { size_bytes: 1, kind: Some(OpKind::SrlR8(Register::D)) }),
        0x3b => Some(Opcode { size_bytes: 1, kind: Some(OpKind::SrlR8(Register::E)) }),
        0x3c => Some(Opcode { size_bytes: 1, kind: Some(OpKind::SrlR8(Register::H)) }),
        0x3d => Some(Opcode { size_bytes: 1, kind: Some(OpKind::SrlR8(Register::L)) }),
        0x3e => Some(Opcode { size_bytes: 1, kind: None }),
        0x3f => Some(Opcode { size_bytes: 1, kind: Some(OpKind::SrlR8(Register::A)) }),
        0x40 => Some(Opcode { size_bytes: 1, kind: Some(OpKind::BitR8(0, Register::B)) }),
        0x41 => Some(Opcode { size_bytes: 1, kind: Some(OpKind::BitR8(0, Register::C)) }),
        0x42 => Some(Opcode { size_bytes: 1, kind: Some(OpKind::BitR8(0, Register::D)) }),
        0x43 => Some(Opcode { size_bytes: 1, kind: Some(OpKind::BitR8(0, Register::E)) }),
        0x44 => Some(Opcode { size_bytes: 1, kind: Some(OpKind::BitR8(0, Register::H)) }),
        0x45 => Some(Opcode { size_bytes: 1, kind: Some(OpKind::BitR8(0, Register::L)) }),
        0x46 => Some(Opcode { size_bytes: 1, kind: Some(OpKind::BitIndHl(0)) }),
        0x47 => Some(Opcode { size_bytes: 1, kind: Some(OpKind::BitR8(0, Register::A)) }),
        0x48 => Some(Opcode { size_bytes: 1, kind: Some(OpKind::BitR8(1, Register::B)) }),
        0x49 => Some(Opcode { size_bytes: 1, kind: Some(OpKind::BitR8(1, Register::C)) }),
        0x4a => Some(Opcode { size_bytes: 1, kind: Some(OpKind::BitR8(1, Register::D)) }),
        0x4b => Some(Opcode { size_bytes: 1, kind: Some(OpKind::BitR8(1, Register::E)) }),
        0x4c => Some(Opcode { size_bytes: 1, kind: Some(OpKind::BitR8(1, Register::H)) }),
        0x4d => Some(Opcode { size_bytes: 1, kind: Some(OpKind::BitR8(1, Register::L)) }),
        0x4e => Some(Opcode { size_bytes: 1, kind: Some(OpKind::BitIndHl(1)) }),
        0x4f => Some(Opcode { size_bytes: 1, kind: Some(OpKind::BitR8(1, Register::A)) }),
        0x50 => Some(Opcode { size_bytes: 1, kind: Some(OpKind::BitR8(2, Register::B)) }),
        0x51 => Some(Opcode { size_bytes: 1, kind: Some(OpKind::BitR8(2, Register::C)) }),
        0x52 => Some(Opcode { size_bytes: 1, kind: Some(OpKind::BitR8(2, Register::D)) }),
        0x53 => Some(Opcode { size_bytes: 1, kind: Some(OpKind::BitR8(2, Register::E)) }),
        0x54 => Some(Opcode { size_bytes: 1, kind: Some(OpKind::BitR8(2, Register::H)) }),
        0x55 => Some(Opcode { size_bytes: 1, kind: Some(OpKind::BitR8(2, Register::L)) }),
        0x56 => Some(Opcode { size_bytes: 1, kind: Some(OpKind::BitIndHl(2)) }),
        0x57 => Some(Opcode { size_bytes: 1, kind: Some(OpKind::BitR8(2, Register::A)) }),
        0x58 => Some(Opcode { size_bytes: 1, kind: Some(OpKind::BitR8(3, Register::B)) }),
        0x59 => Some(Opcode { size_bytes: 1, kind: Some(OpKind::BitR8(3, Register::C)) }),
        0x5a => Some(Opcode { size_bytes: 1, kind: Some(OpKind::BitR8(3, Register::D)) }),
        0x5b => Some(Opcode { size_bytes: 1, kind: Some(OpKind::BitR8(3, Register::E)) }),
        0x5c => Some(Opcode { size_bytes: 1, kind: Some(OpKind::BitR8(3, Register::H)) }),
        0x5d => Some(Opcode { size_bytes: 1, kind: Some(OpKind::BitR8(3, Register::L)) }),
        0x5e => Some(Opcode { size_bytes: 1, kind: Some(OpKind::BitIndHl(3)) }),
        0x5f => Some(Opcode { size_bytes: 1, kind: Some(OpKind::BitR8(3, Register::A)) }),
        0x60 => Some(Opcode { size_bytes: 1, kind: Some(OpKind::BitR8(4, Register::B)) }),
        0x61 => Some(Opcode { size_bytes: 1, kind: Some(OpKind::BitR8(4, Register::C)) }),
        0x62 => Some(Opcode { size_bytes: 1, kind: Some(OpKind::BitR8(4, Register::D)) }),
        0x63 => Some(Opcode { size_bytes: 1, kind: Some(OpKind::BitR8(4, Register::E)) }),
        0x64 => Some(Opcode { size_bytes: 1, kind: Some(OpKind::BitR8(4, Register::H)) }),
        0x65 => Some(Opcode { size_bytes: 1, kind: Some(OpKind::BitR8(4, Register::L)) }),
        0x66 => Some(Opcode { size_bytes: 1, kind: Some(OpKind::BitIndHl(4)) }),
        0x67 => Some(Opcode { size_bytes: 1, kind: Some(OpKind::BitR8(4, Register::A)) }),
        0x68 => Some(Opcode { size_bytes: 1, kind: Some(OpKind::BitR8(5, Register::B)) }),
        0x69 => Some(Opcode { size_bytes: 1, kind: Some(OpKind::BitR8(5, Register::C)) }),
        0x6a => Some(Opcode { size_bytes: 1, kind: Some(OpKind::BitR8(5, Register::D)) }),
        0x6b => Some(Opcode { size_bytes: 1, kind: Some(OpKind::BitR8(5, Register::E)) }),
        0x6c => Some(Opcode { size_bytes: 1, kind: Some(OpKind::BitR8(5, Register::H)) }),
        0x6d => Some(Opcode { size_bytes: 1, kind: Some(OpKind::BitR8(5, Register::L)) }),
        0x6e => Some(Opcode { size_bytes: 1, kind: Some(OpKind::BitIndHl(5)) }),
        0x6f => Some(Opcode { size_bytes: 1, kind: Some(OpKind::BitR8(5, Register::A)) }),
        0x70 => Some(Opcode { size_bytes: 1, kind: Some(OpKind::BitR8(6, Register::B)) }),
        0x71 => Some(Opcode { size_bytes: 1, kind: Some(OpKind::BitR8(6, Register::C)) }),
        0x72 => Some(Opcode { size_bytes: 1, kind: Some(OpKind::BitR8(6, Register::D)) }),
        0x73 => Some(Opcode { size_bytes: 1, kind: Some(OpKind::BitR8(6, Register::E)) }),
        0x74 => Some(Opcode { size_bytes: 1, kind: Some(OpKind::BitR8(6, Register::H)) }),
        0x75 => Some(Opcode { size_bytes: 1, kind: Some(OpKind::BitR8(6, Register::L)) }),
        0x76 => Some(Opcode { size_bytes: 1, kind: Some(OpKind::BitIndHl(6)) }),
        0x77 => Some(Opcode { size_bytes: 1, kind: Some(OpKind::BitR8(6, Register::A)) }),
        0x78 => Some(Opcode { size_bytes: 1, kind: Some(OpKind::BitR8(7, Register::B)) }),
        0x79 => Some(Opcode { size_bytes: 1, kind: Some(OpKind::BitR8(7, Register::C)) }),
        0x7a => Some(Opcode { size_bytes: 1, kind: Some(OpKind::BitR8(7, Register::D)) }),
        0x7b => Some(Opcode { size_bytes: 1, kind: Some(OpKind::BitR8(7, Register::E)) }),
        0x7c => Some(Opcode { size_bytes: 1, kind: Some(OpKind::BitR8(7, Register::H)) }),
        0x7d => Some(Opcode { size_bytes: 1, kind: Some(OpKind::BitR8(7, Register::L)) }),
        0x7e => Some(Opcode { size_bytes: 1, kind: Some(OpKind::BitIndHl(7)) }),
        0x7f => Some(Opcode { size_bytes: 1, kind: Some(OpKind::BitR8(7, Register::A)) }),
        0x80 => Some(Opcode { size_bytes: 1, kind: Some(OpKind::ResR8(0, Register::B)) }),
        0x81 => Some(Opcode { size_bytes: 1, kind: Some(OpKind::ResR8(0, Register::C)) }),
        0x82 => Some(Opcode { size_bytes: 1, kind: Some(OpKind::ResR8(0, Register::D)) }),
        0x83 => Some(Opcode { size_bytes: 1, kind: Some(OpKind::ResR8(0, Register::E)) }),
        0x84 => Some(Opcode { size_bytes: 1, kind: Some(OpKind::ResR8(0, Register::H)) }),
        0x85 => Some(Opcode { size_bytes: 1, kind: Some(OpKind::ResR8(0, Register::L)) }),
        0x86 => Some(Opcode { size_bytes: 1, kind: Some(OpKind::ResIndHl(0)) }),
        0x87 => Some(Opcode { size_bytes: 1, kind: Some(OpKind::ResR8(0, Register::A)) }),
        0x88 => Some(Opcode { size_bytes: 1, kind: Some(OpKind::ResR8(1, Register::B)) }),
        0x89 => Some(Opcode { size_bytes: 1, kind: Some(OpKind::ResR8(1, Register::C)) }),
        0x8a => Some(Opcode { size_bytes: 1, kind: Some(OpKind::ResR8(1, Register::D)) }),
        0x8b => Some(Opcode { size_bytes: 1, kind: Some(OpKind::ResR8(1, Register::E)) }),
        0x8c => Some(Opcode { size_bytes: 1, kind: Some(OpKind::ResR8(1, Register::H)) }),
        0x8d => Some(Opcode { size_bytes: 1, kind: Some(OpKind::ResR8(1, Register::L)) }),
        0x8e => Some(Opcode { size_bytes: 1, kind: Some(OpKind::ResIndHl(1)) }),
        0x8f => Some(Opcode { size_bytes: 1, kind: Some(OpKind::ResR8(1, Register::A)) }),
        0x90 => Some(Opcode { size_bytes: 1, kind: Some(OpKind::ResR8(2, Register::B)) }),
        0x91 => Some(Opcode { size_bytes: 1, kind: Some(OpKind::ResR8(2, Register::C)) }),
        0x92 => Some(Opcode { size_bytes: 1, kind: Some(OpKind::ResR8(2, Register::D)) }),
        0x93 => Some(Opcode { size_bytes: 1, kind: Some(OpKind::ResR8(2, Register::E)) }),
        0x94 => Some(Opcode { size_bytes: 1, kind: Some(OpKind::ResR8(2, Register::H)) }),
        0x95 => Some(Opcode { size_bytes: 1, kind: Some(OpKind::ResR8(2, Register::L)) }),
        0x96 => Some(Opcode { size_bytes: 1, kind: Some(OpKind::ResIndHl(2)) }),
        0x97 => Some(Opcode { size_bytes: 1, kind: Some(OpKind::ResR8(2, Register::A)) }),
        0x98 => Some(Opcode { size_bytes: 1, kind: Some(OpKind::ResR8(3, Register::B)) }),
        0x99 => Some(Opcode { size_bytes: 1, kind: Some(OpKind::ResR8(3, Register::C)) }),
        0x9a => Some(Opcode { size_bytes: 1, kind: Some(OpKind::ResR8(3, Register::D)) }),
        0x9b => Some(Opcode { size_bytes: 1, kind: Some(OpKind::ResR8(3, Register::E)) }),
        0x9c => Some(Opcode { size_bytes: 1, kind: Some(OpKind::ResR8(3, Register::H)) }),
        0x9d => Some(Opcode { size_bytes: 1, kind: Some(OpKind::ResR8(3, Register::L)) }),
        0x9e => Some(Opcode { size_bytes: 1, kind: Some(OpKind::ResIndHl(3)) }),
        0x9f => Some(Opcode { size_bytes: 1, kind: Some(OpKind::ResR8(3, Register::A)) }),
        0xa0 => Some(Opcode { size_bytes: 1, kind: Some(OpKind::ResR8(4, Register::B)) }),
        0xa1 => Some(Opcode { size_bytes: 1, kind: Some(OpKind::ResR8(4, Register::C)) }),
        0xa2 => Some(Opcode { size_bytes: 1, kind: Some(OpKind::ResR8(4, Register::D)) }),
        0xa3 => Some(Opcode { size_bytes: 1, kind: Some(OpKind::ResR8(4, Register::E)) }),
        0xa4 => Some(Opcode { size_bytes: 1, kind: Some(OpKind::ResR8(4, Register::H)) }),
        0xa5 => Some(Opcode { size_bytes: 1, kind: Some(OpKind::ResR8(4, Register::L)) }),
        0xa6 => Some(Opcode { size_bytes: 1, kind: Some(OpKind::ResIndHl(4)) }),
        0xa7 => Some(Opcode { size_bytes: 1, kind: Some(OpKind::ResR8(4, Register::A)) }),
        0xa8 => Some(Opcode { size_bytes: 1, kind: Some(OpKind::ResR8(5, Register::B)) }),
        0xa9 => Some(Opcode { size_bytes: 1, kind: Some(OpKind::ResR8(5, Register::C)) }),
        0xaa => Some(Opcode { size_bytes: 1, kind: Some(OpKind::ResR8(5, Register::D)) }),
        0xab => Some(Opcode { size_bytes: 1, kind: Some(OpKind::ResR8(5, Register::E)) }),
        0xac => Some(Opcode { size_bytes: 1, kind: Some(OpKind::ResR8(5, Register::H)) }),
        0xad => Some(Opcode { size_bytes: 1, kind: Some(OpKind::ResR8(5, Register::L)) }),
        0xae => Some(Opcode { size_bytes: 1, kind: Some(OpKind::ResIndHl(5)) }),
        0xaf => Some(Opcode { size_bytes: 1, kind: Some(OpKind::ResR8(5, Register::A)) }),
        0xb0 => Some(Opcode { size_bytes: 1, kind: Some(OpKind::ResR8(6, Register::B)) }),
        0xb1 => Some(Opcode { size_bytes: 1, kind: Some(OpKind::ResR8(6, Register::C)) }),
        0xb2 => Some(Opcode { size_bytes: 1, kind: Some(OpKind::ResR8(6, Register::D)) }),
        0xb3 => Some(Opcode { size_bytes: 1, kind: Some(OpKind::ResR8(6, Register::E)) }),
        0xb4 => Some(Opcode { size_bytes: 1, kind: Some(OpKind::ResR8(6, Register::H)) }),
        0xb5 => Some(Opcode { size_bytes: 1, kind: Some(OpKind::ResR8(6, Register::L)) }),
        0xb6 => Some(Opcode { size_bytes: 1, kind: Some(OpKind::ResIndHl(6)) }),
        0xb7 => Some(Opcode { size_bytes: 1, kind: Some(OpKind::ResR8(6, Register::A)) }),
        0xb8 => Some(Opcode { size_bytes: 1, kind: Some(OpKind::ResR8(7, Register::B)) }),
        0xb9 => Some(Opcode { size_bytes: 1, kind: Some(OpKind::ResR8(7, Register::C)) }),
        0xba => Some(Opcode { size_bytes: 1, kind: Some(OpKind::ResR8(7, Register::D)) }),
        0xbb => Some(Opcode { size_bytes: 1, kind: Some(OpKind::ResR8(7, Register::E)) }),
        0xbc => Some(Opcode { size_bytes: 1, kind: Some(OpKind::ResR8(7, Register::H)) }),
        0xbd => Some(Opcode { size_bytes: 1, kind: Some(OpKind::ResR8(7, Register::L)) }),
        0xbe => Some(Opcode { size_bytes: 1, kind: Some(OpKind::ResIndHl(7)) }),
        0xbf => Some(Opcode { size_bytes: 1, kind: Some(OpKind::ResR8(7, Register::A)) }),
        0xc0 => Some(Opcode { size_bytes: 1, kind: None }),
        0xc1 => Some(Opcode { size_bytes: 1, kind: None }),
        0xc2 => Some(Opcode { size_bytes: 1, kind: None }),
        0xc3 => Some(Opcode { size_bytes: 1, kind: None }),
        0xc4 => Some(Opcode { size_bytes: 1, kind: None }),
        0xc5 => Some(Opcode { size_bytes: 1, kind: None }),
        0xc6 => Some(Opcode { size_bytes: 1, kind: Some(OpKind::SetIndHl(0)) }),
        0xc7 => Some(Opcode { size_bytes: 1, kind: None }),
        0xc8 => Some(Opcode { size_bytes: 1, kind: None }),
        0xc9 => Some(Opcode { size_bytes: 1, kind: None }),
        0xca => Some(Opcode { size_bytes: 1, kind: None }),
        0xcb => Some(Opcode { size_bytes: 1, kind: None }),
        0xcc => Some(Opcode { size_bytes: 1, kind: None }),
        0xcd => Some(Opcode { size_bytes: 1, kind: None }),
        0xce => Some(Opcode { size_bytes: 1, kind: Some(OpKind::SetIndHl(1)) }),
        0xcf => Some(Opcode { size_bytes: 1, kind: None }),
        0xd0 => Some(Opcode { size_bytes: 1, kind: None }),
        0xd1 => Some(Opcode { size_bytes: 1, kind: None }),
        0xd2 => Some(Opcode { size_bytes: 1, kind: None }),
        0xd3 => Some(Opcode { size_bytes: 1, kind: None }),
        0xd4 => Some(Opcode { size_bytes: 1, kind: None }),
        0xd5 => Some(Opcode { size_bytes: 1, kind: None }),
        0xd6 => Some(Opcode { size_bytes: 1, kind: Some(OpKind::SetIndHl(2)) }),
        0xd7 => Some(Opcode { size_bytes: 1, kind: None }),
        0xd8 => Some(Opcode { size_bytes: 1, kind: None }),
        0xd9 => Some(Opcode { size_bytes: 1, kind: None }),
        0xda => Some(Opcode { size_bytes: 1, kind: None }),
        0xdb => Some(Opcode { size_bytes: 1, kind: None }),
        0xdc => Some(Opcode { size_bytes: 1, kind: None }),
        0xdd => Some(Opcode { size_bytes: 1, kind: None }),
        0xde => Some(Opcode { size_bytes: 1, kind: Some(OpKind::SetIndHl(3)) }),
        0xdf => Some(Opcode { size_bytes: 1, kind: None }),
        0xe0 => Some(Opcode { size_bytes: 1, kind: None }),
        0xe1 => Some(Opcode { size_bytes: 1, kind: None }),
        0xe2 => Some(Opcode { size_bytes: 1, kind: None }),
        0xe3 => Some(Opcode { size_bytes: 1, kind: None }),
        0xe4 => Some(Opcode { size_bytes: 1, kind: None }),
        0xe5 => Some(Opcode { size_bytes: 1, kind: None }),
        0xe6 => Some(Opcode { size_bytes: 1, kind: Some(OpKind::SetIndHl(4)) }),
        0xe7 => Some(Opcode { size_bytes: 1, kind: None }),
        0xe8 => Some(Opcode { size_bytes: 1, kind: None }),
        0xe9 => Some(Opcode { size_bytes: 1, kind: None }),
        0xea => Some(Opcode { size_bytes: 1, kind: None }),
        0xeb => Some(Opcode { size_bytes: 1, kind: None }),
        0xec => Some(Opcode { size_bytes: 1, kind: None }),
        0xed => Some(Opcode { size_bytes: 1, kind: None }),
        0xee => Some(Opcode { size_bytes: 1, kind: Some(OpKind::SetIndHl(5)) }),
        0xef => Some(Opcode { size_bytes: 1, kind: None }),
        0xf0 => Some(Opcode { size_bytes: 1, kind: None }),
        0xf1 => Some(Opcode { size_bytes: 1, kind: None }),
        0xf2 => Some(Opcode { size_bytes: 1, kind: None }),
        0xf3 => Some(Opcode { size_bytes: 1, kind: None }),
        0xf4 => Some(Opcode { size_bytes: 1, kind: None }),
        0xf5 => Some(Opcode { size_bytes: 1, kind: None }),
        0xf6 => Some(Opcode { size_bytes: 1, kind: Some(OpKind::SetIndHl(6)) }),
        0xf7 => Some(Opcode { size_bytes: 1, kind: None }),
        0xf8 => Some(Opcode { size_bytes: 1, kind: None }),
        0xf9 => Some(Opcode { size_bytes: 1, kind: None }),
        0xfa => Some(Opcode { size_bytes: 1, kind: None }),
        0xfb => Some(Opcode { size_bytes: 1, kind: None }),
        0xfc => Some(Opcode { size_bytes: 1, kind: None }),
        0xfd => Some(Opcode { size_bytes: 1, kind: None }),
        0xfe => Some(Opcode { size_bytes: 1, kind: Some(OpKind::SetIndHl(7)) }),
        0xff => Some(Opcode { size_bytes: 1, kind: None }),
    }
}

} // verus!
