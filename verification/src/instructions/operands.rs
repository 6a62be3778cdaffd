//! Operand sources for instructions and their resolution against CPU state.
//!
//! The 3-bit register encoding shared by every opcode block that names an
//! 8-bit register operand lives here, as the one mapping table all decoders
//! use.

use vstd::prelude::*;

use crate::CpuState;
use crate::registers::Reg8;
use crate::registers::RwRegister;
use crate::registers::spec_pair_join;
use crate::spec_mem_byte;

verus! {

/// Anything an instruction can read a value of type `T` from, given the
/// current CPU state.
pub trait Source<T>: Sized {
    /// The value this source resolves to against a given CPU state.
    spec fn spec_value(self, state: CpuState) -> T;

    /// Resolves this source to its current value.
    fn value(&self, state: &CpuState) -> (r: T)
        ensures
            r == self.spec_value(*state),
    ;
}

/// Source for an 8-bit arithmetic operation, as used by the block 2
/// register-operand instructions and the block 3 immediate-operand
/// instructions.
#[derive(Clone, Copy, Debug, PartialEq, Eq, Structural)]
pub enum ArithSource {
    /// An 8-bit register.
    Reg(Reg8),
    /// The memory cell whose 16-bit address is held in the `HL` register
    /// pair.
    Addr,
    /// An 8-bit literal embedded in the instruction stream.
    Immediate(u8),
}

/// The operand source the low 3 bits of an opcode select: `B`, `C`, `D`, `E`,
/// `H`, `L`, the `HL`-indirect memory cell, then the accumulator, in that
/// fixed enumeration order over 0 to 7.
pub open spec fn spec_source_of_low3(k: u8) -> ArithSource {
    if k == 0 {
        ArithSource::Reg(Reg8::B)
    } else if k == 1 {
        ArithSource::Reg(Reg8::C)
    } else if k == 2 {
        ArithSource::Reg(Reg8::D)
    } else if k == 3 {
        ArithSource::Reg(Reg8::E)
    } else if k == 4 {
        ArithSource::Reg(Reg8::H)
    } else if k == 5 {
        ArithSource::Reg(Reg8::L)
    } else if k == 6 {
        ArithSource::Addr
    } else {
        ArithSource::Reg(Reg8::Acc)
    }
}

/// Law: the register-encoding table maps opcode low-3-bit values 0 to 7 to
/// exactly `B`, `C`, `D`, `E`, `H`, `L`, the `HL`-indirect cell and the
/// accumulator, in that order, for every opcode sharing that field.
pub proof fn lemma_register_encoding_table(opcode: u8)
    ensures
        opcode & 7 == 0 ==> spec_source_of_low3(opcode & 7) == ArithSource::Reg(Reg8::B),
        opcode & 7 == 1 ==> spec_source_of_low3(opcode & 7) == ArithSource::Reg(Reg8::C),
        opcode & 7 == 2 ==> spec_source_of_low3(opcode & 7) == ArithSource::Reg(Reg8::D),
        opcode & 7 == 3 ==> spec_source_of_low3(opcode & 7) == ArithSource::Reg(Reg8::E),
        opcode & 7 == 4 ==> spec_source_of_low3(opcode & 7) == ArithSource::Reg(Reg8::H),
        opcode & 7 == 5 ==> spec_source_of_low3(opcode & 7) == ArithSource::Reg(Reg8::L),
        opcode & 7 == 6 ==> spec_source_of_low3(opcode & 7) == ArithSource::Addr,
        opcode & 7 == 7 ==> spec_source_of_low3(opcode & 7) == ArithSource::Reg(Reg8::Acc),
        opcode & 7 < 8,
{
    assert(opcode & 7 < 8) by (bit_vector);
}

/// The 8-bit value an operand source resolves to against a CPU state: the
/// named register's current value, the byte at the address held in `HL`, or
/// the embedded literal.
pub open spec fn spec_resolved(src: ArithSource, state: CpuState) -> u8 {
    match src {
        ArithSource::Reg(r) => r.spec_read(state.regs),
        ArithSource::Addr => spec_mem_byte(state.mem@, spec_pair_join(state.regs.h, state.regs.l)),
        ArithSource::Immediate(v) => v,
    }
}

impl ArithSource {
    /// Builds the operand source an opcode names through its low 3 bits,
    /// following the shared register-encoding table.
    pub fn from_opcode(opcode: u8) -> (r: Self)
        ensures
            r == spec_source_of_low3(opcode & 7),
    {
        // The three last bits of the opcode.
        let reg_idx: u8 = opcode & 0b0000_0111;

        match reg_idx {
            0 => Self::Reg(Reg8::B),
            1 => Self::Reg(Reg8::C),
            2 => Self::Reg(Reg8::D),
            3 => Self::Reg(Reg8::E),
            4 => Self::Reg(Reg8::H),
            5 => Self::Reg(Reg8::L),
            6 => Self::Addr,
            // A 3-bit field leaves 7 as the only remaining value.
            _ => Self::Reg(Reg8::Acc),
        }
    }

    /// Wraps a trailing immediate byte of the instruction stream as an
    /// operand source.
    pub fn from_literal(val: u8) -> (r: Self)
        ensures
            r == ArithSource::Immediate(val),
    {
        Self::Immediate(val)
    }
}

impl Source<u8> for ArithSource {
    open spec fn spec_value(self, state: CpuState) -> u8 {
        spec_resolved(self, state)
    }

    fn value(&self, state: &CpuState) -> (r: u8) {
        match *self {
            ArithSource::Immediate(imm) => imm,
            ArithSource::Reg(reg) => reg.read(&state.regs),
            ArithSource::Addr => {
                let addr = state.regs.hl();
                if (addr as usize) < state.mem.len() {
                    state.mem[addr as usize]
                } else {
                    // Addresses beyond the loaded image read as zero: the
                    // memory collaborator that would map them is outside this
                    // core.
                    0
                }
            },
        }
    }
}

} // verus!
