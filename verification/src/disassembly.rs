//! A static disassembler over a flat program image: it walks the bytes from
//! offset zero, decoding through the base table and switching to the
//! prefixed table for the byte after each CB prefix, and records one decoded
//! (or unassigned) instruction per step.

use vstd::prelude::*;

use crate::memory::Address;
use crate::opcode;
use crate::opcode::{spec_decode, spec_decode_prefixed, OpKind, Opcode};

verus! {

/// One disassembled slot: where it sits and what decoded there.
#[derive(Clone, Copy, PartialEq, Eq, Structural, Debug)]
pub struct Instruction {
    pub address: Address,
    pub opcode: Option<Opcode>,
}

/// Bytes left to walk; the walk may overshoot the end by up to two bytes
/// when a multi-byte instruction sits at the boundary.
pub open spec fn spec_remaining(program_len: nat, pc: nat) -> nat {
    if pc <= program_len {
        (program_len - pc) as nat
    } else {
        0
    }
}

/// The listing from offset `pc` on, decoding through the prefixed table
/// exactly when the previous byte was the CB prefix. An unassigned byte is
/// recorded with no opcode and skipped as one byte.
pub open spec fn spec_disassemble(program: Seq<u8>, pc: nat, prefixed: bool) -> Seq<Instruction>
    decreases spec_remaining(program.len(), pc),
{
    if pc >= program.len() {
        Seq::empty()
    } else {
        let byte = program[pc as int];
        let decoded = if prefixed {
            spec_decode_prefixed(byte)
        } else {
            spec_decode(byte)
        };
        let next_prefixed = match decoded {
            Some(op) => op.kind == Some(OpKind::Prefix),
            None => false,
        };
        let increment: nat = match decoded {
            Some(op) => if op.size_bytes >= 1 {
                op.size_bytes as nat
            } else {
                1
            },
            None => 1,
        };
        seq![Instruction { address: Address(pc as u16), opcode: decoded }] + spec_disassemble(
            program,
            pc + increment,
            next_prefixed,
        )
    }
}

/// Disassembles a whole program image from offset zero.
pub fn disassemble(program: &Vec<u8>) -> (r: Vec<Instruction>)
    requires
        program@.len() <= 0x10000,
    ensures
        r@ == spec_disassemble(program@, 0, false),
{
    let mut instructions: Vec<Instruction> = Vec::new();
    let mut pc: usize = 0;
    let mut prefixed = false;
    while pc < program.len()
        invariant
            program@.len() <= 0x10000,
            pc <= program@.len() + 2,
            instructions@ + spec_disassemble(program@, pc as nat, prefixed) =~= spec_disassemble(
                program@,
                0,
                false,
            ),
        decreases spec_remaining(program@.len(), pc as nat),
    {
        let ghost pre_acc = instructions@;
        let ghost pre_pc = pc as nat;
        let ghost pre_prefixed = prefixed;
        let byte = program[pc];
        let decoded = if prefixed {
            prefixed = false;
            opcode::decode_prefixed(byte)
        } else {
            opcode::decode(byte)
        };
        let mut pc_increment: usize = 1;
        if let Some(o) = decoded {
            if let Some(OpKind::Prefix) = o.kind {
                prefixed = true;
            }
            pc_increment = o.size_bytes as usize;
        }
        let slot = Instruction { address: Address(pc as u16), opcode: decoded };
        instructions.push(slot);
        pc = pc + pc_increment;
        proof {
            assert(spec_disassemble(program@, pre_pc, pre_prefixed) =~= seq![slot]
                + spec_disassemble(program@, pc as nat, prefixed));
            assert(instructions@ =~= pre_acc + seq![slot]);
            assert(instructions@ + spec_disassemble(program@, pc as nat, prefixed)
                =~= (pre_acc + seq![slot]) + spec_disassemble(program@, pc as nat, prefixed));
            assert((pre_acc + seq![slot]) + spec_disassemble(program@, pc as nat, prefixed)
                =~= pre_acc + (seq![slot] + spec_disassemble(program@, pc as nat, prefixed)));
        }
    }
    proof {
        assert(spec_disassemble(program@, pc as nat, prefixed) =~= Seq::empty());
        assert(instructions@ =~= instructions@ + spec_disassemble(program@, pc as nat, prefixed));
    }
    instructions
}

} // verus!
