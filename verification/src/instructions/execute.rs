//! The executable instructions: the Add family and its exact flag semantics.

use vstd::prelude::*;

use super::Executable;
use super::operands::ArithSource;
use super::operands::Source;
use super::operands::spec_resolved;
use crate::CpuState;
use crate::registers::FlagsView;
use crate::registers::RawRegisters;

verus! {

/// The accumulator after an 8-bit add: the sum with 8-bit wraparound.
pub open spec fn spec_add_result(acc: u8, operand: u8) -> u8 {
    ((acc + operand) % 256) as u8
}

/// The flags an add computes, all four recomputed from scratch:
/// - `Zero` iff the wrapped result is 0;
/// - `Subtract` cleared unconditionally (an add is not a subtraction);
/// - `Half-carry` iff the low nibble of the result is numerically less than
///   the low nibble of the operand, which for this byte-wraparound addition
///   detects a carry out of bit 3;
/// - `Carry` iff the unwrapped sum did not fit in 8 bits.
pub open spec fn spec_add_flags(acc: u8, operand: u8) -> FlagsView {
    let result = spec_add_result(acc, operand);
    FlagsView {
        zero: result == 0,
        subtract: false,
        half_carry: (result & 0x0F) < (operand & 0x0F),
        carry: acc + operand > 255,
    }
}

/// The byte width of an arithmetic instruction with the given operand source:
/// 2 for an immediate operand (opcode plus trailing literal), 1 otherwise.
pub open spec fn spec_width(src: ArithSource) -> u16 {
    match src {
        ArithSource::Immediate(_) => 2,
        _ => 1,
    }
}

/// The program counter after advancing by the instruction's byte width,
/// wrapping at the 16-bit boundary.
pub open spec fn spec_advanced_pc(pc: u16, src: ArithSource) -> u16 {
    ((pc + spec_width(src)) % 0x10000) as u16
}

/// The 8-bit add instruction: adds the resolved operand to the accumulator
/// with 8-bit wraparound and recomputes the four flags.
#[derive(Clone, Copy, Debug, PartialEq, Eq, Structural)]
pub struct Add(pub ArithSource);

impl Add {
    /// Builds an add instruction reading from the given operand source.
    pub fn with_source(src: ArithSource) -> (r: Self)
        ensures
            r.0 == src,
    {
        Self(src)
    }
}

impl Executable for Add {
    open spec fn spec_effect(self, pre: CpuState, post: CpuState) -> bool {
        let operand = spec_resolved(self.0, pre);
        &&& post.regs == (RawRegisters {
            acc: spec_add_result(pre.regs.acc, operand),
            pc: spec_advanced_pc(pre.regs.pc, self.0),
            ..pre.regs
        })
        &&& post.flags@ == spec_add_flags(pre.regs.acc, operand)
        &&& post.mem@ == pre.mem@
    }

    fn execute(&self, state: &mut CpuState) {
        let operand = self.0.value(state);
        let acc = state.regs.acc();
        let sum: u16 = acc as u16 + operand as u16;
        let result: u8 = (sum % 256) as u8;
        let did_overflow: bool = sum > 255;

        state.flags.set_zero(result == 0);
        state.flags.set_carry(did_overflow);
        state.flags.clear_subtract();
        // If a half carry occurred, the resulting nibble is less than the
        // operand nibble.
        state.flags.set_half_carry((result & 0x0F) < (operand & 0x0F));

        // Advance the program counter by the instruction's byte width,
        // wrapping at the 16-bit boundary.
        let width: u16 = match self.0 {
            ArithSource::Immediate(_) => 2,
            _ => 1,
        };
        let pc = state.regs.pc();
        let next_pc: u16 = ((pc as u32 + width as u32) % 0x10000) as u16;
        state.regs.set_pc(next_pc);
        // Update the accumulator.
        state.regs.set_acc(result);
    }
}

/// Law: executing an add over accumulator value `a` and a source resolving to
/// operand value `b` yields accumulator `(a + b) mod 256`; the zero flag set
/// iff that result is 0; the carry flag set iff `a + b > 255`; the half-carry
/// flag set iff the low nibble of the result is less than the low nibble of
/// `b`; and the subtract flag always clear.
pub proof fn lemma_add_semantics(instr: Add, pre: CpuState, post: CpuState)
    requires
        instr.spec_effect(pre, post),
    ensures
        post.regs.acc == (pre.regs.acc + spec_resolved(instr.0, pre)) % 256,
        post.flags@.zero <==> (pre.regs.acc + spec_resolved(instr.0, pre)) % 256 == 0,
        post.flags@.carry <==> pre.regs.acc + spec_resolved(instr.0, pre) > 255,
        post.flags@.half_carry <==> (post.regs.acc & 0x0F) < (spec_resolved(instr.0, pre) & 0x0F),
        !post.flags@.subtract,
{
}

/// Law: an add advances the program counter by exactly its byte width — 1 for
/// a register or indirect operand, 2 for an immediate operand — from whatever
/// value it held before, wrapping at the 16-bit boundary.
pub proof fn lemma_add_pc_advance(instr: Add, pre: CpuState, post: CpuState)
    requires
        instr.spec_effect(pre, post),
    ensures
        (instr.0 matches ArithSource::Immediate(_)) ==> post.regs.pc == (pre.regs.pc + 2) % 0x10000,
        !(instr.0 matches ArithSource::Immediate(_)) ==> post.regs.pc == (pre.regs.pc + 1)
            % 0x10000,
{
}

} // verus!
