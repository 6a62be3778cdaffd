//! The CPU instructions and the fetch/decode machinery around them.
//!
//! The instructions can be organized in blocks, where the block number is
//! encoded in the 2 most significant bits of the opcode:
//!
//! | Block | Opcode bit 7 | Opcode bit 6 | Opcode bits 5-0 |
//! |-------|--------------|--------------|-----------------|
//! | 0     | 0            | 0            | X X X X X X     |
//! | 1     | 0            | 1            | X X X X X X     |
//! | 2     | 1            | 0            | X X X X X X     |
//! | 3     | 1            | 1            | X X X X X X     |

use vstd::prelude::*;

pub mod execute;
pub mod operands;
pub mod parsers;

use crate::CpuState;
use execute::Add;
use operands::spec_resolved;
use operands::spec_source_of_low3;
use parsers::Decode;
use parsers::DecodeError;
use parsers::InstructionDecoder;
use parsers::spec_decode_bytes;

verus! {

/// A decoded instruction that can mutate CPU state deterministically.
pub trait Executable: Sized {
    /// The relation between the CPU state before executing this instruction
    /// and the state after: it pins the whole resulting state.
    spec fn spec_effect(self, pre: CpuState, post: CpuState) -> bool;

    /// Executes this instruction against the CPU state.
    fn execute(&self, state: &mut CpuState)
        ensures
            self.spec_effect(*old(state), *final(state)),
    ;
}

/// The tagged union of decoded instructions; each variant owns the data it
/// needs to execute itself.
#[derive(Clone, Copy, Debug, PartialEq, Eq, Structural)]
pub enum Instruction {
    /// An 8-bit add to the accumulator.
    AddInstr(Add),
}

/// Why a byte slice failed to yield an instruction.
#[derive(Clone, Copy, Debug, PartialEq, Eq, Structural)]
pub enum InstructionError {
    /// The slice holds fewer bytes than the opcode requires.
    Invalid,
    /// The opcode is a legal byte of the instruction set, but its semantics
    /// lie outside the arithmetic family this core defines.
    Unimplemented,
}

/// The instruction a byte sequence decodes to from its start, with the decode
/// errors reported under this module's error type.
pub open spec fn spec_from_bytes(bytes: Seq<u8>) -> Result<Instruction, InstructionError> {
    match spec_decode_bytes(bytes) {
        Ok(i) => Ok(i),
        Err(DecodeError::Invalid) => Err(InstructionError::Invalid),
        Err(DecodeError::Unimplemented) => Err(InstructionError::Unimplemented),
    }
}

impl Instruction {
    /// Decodes the instruction beginning at the first byte of the slice: the
    /// leading byte routes to a decode path and that path's decoder reads the
    /// sub-fields, consuming 1 or 2 bytes.
    pub fn from_bytes(mem_slice: &[u8]) -> (r: Result<Self, InstructionError>)
        ensures
            r == spec_from_bytes(mem_slice@),
    {
        if mem_slice.len() == 0 {
            return Err(InstructionError::Invalid);
        }
        let decoder = InstructionDecoder::from(mem_slice[0]);
        match decoder.decode(mem_slice) {
            Ok(i) => Ok(i),
            Err(DecodeError::Invalid) => Err(InstructionError::Invalid),
            Err(DecodeError::Unimplemented) => Err(InstructionError::Unimplemented),
        }
    }
}

impl Executable for Instruction {
    open spec fn spec_effect(self, pre: CpuState, post: CpuState) -> bool {
        match self {
            Instruction::AddInstr(i) => i.spec_effect(pre, post),
        }
    }

    fn execute(&self, state: &mut CpuState) {
        // Every instruction recomputes the flags it defines from scratch;
        // clearing them first leaves no bit held over from before execution.
        state.flags.clear();
        match self {
            Instruction::AddInstr(i) => i.execute(state),
        }
    }
}

/// Law: execution is deterministic. Any two states that one instruction's
/// effect relation admits from the same starting state agree on every
/// observable: the register file, the four flags and the memory image.
pub proof fn lemma_execute_deterministic(
    i: Instruction,
    pre: CpuState,
    post1: CpuState,
    post2: CpuState,
)
    requires
        i.spec_effect(pre, post1),
        i.spec_effect(pre, post2),
    ensures
        post1.regs == post2.regs,
        post1.flags@ == post2.flags@,
        post1.mem@ == post2.mem@,
{
}

/// Law: decoding the register-operand Add opcode with low bits `k` and
/// executing the decoded instruction adds the resolved operand to the
/// accumulator with 8-bit wraparound, recomputes the four flags exactly, and
/// advances the program counter by 1.
pub proof fn lemma_decode_then_execute_add_register(k: u8, pre: CpuState, post: CpuState)
    requires
        k < 8,
        (match spec_from_bytes(seq![(0x80 + k) as u8]) {
            Ok(i) => i.spec_effect(pre, post),
            Err(_) => false,
        }),
    ensures
        post.regs.acc == (pre.regs.acc + spec_resolved(spec_source_of_low3(k), pre)) % 256,
        post.flags@.zero <==> post.regs.acc == 0,
        post.flags@.carry <==> pre.regs.acc + spec_resolved(spec_source_of_low3(k), pre) > 255,
        post.flags@.half_carry <==> (post.regs.acc & 0x0F) < (spec_resolved(
            spec_source_of_low3(k),
            pre,
        ) & 0x0F),
        !post.flags@.subtract,
        post.regs.pc == (pre.regs.pc + 1) % 0x10000,
{
    parsers::lemma_decode_add_register(k);
}

/// Law: decoding the immediate-mode Add opcode with trailing literal `b` and
/// executing the decoded instruction adds `b` to the accumulator with 8-bit
/// wraparound, recomputes the four flags exactly, and advances the program
/// counter by 2.
pub proof fn lemma_decode_then_execute_add_immediate(b: u8, pre: CpuState, post: CpuState)
    requires
        (match spec_from_bytes(seq![0xC6u8, b]) {
            Ok(i) => i.spec_effect(pre, post),
            Err(_) => false,
        }),
    ensures
        post.regs.acc == (pre.regs.acc + b) % 256,
        post.flags@.zero <==> post.regs.acc == 0,
        post.flags@.carry <==> pre.regs.acc + b > 255,
        post.flags@.half_carry <==> (post.regs.acc & 0x0F) < (b & 0x0F),
        !post.flags@.subtract,
        post.regs.pc == (pre.regs.pc + 2) % 0x10000,
{
    parsers::lemma_decode_add_immediate(b);
}

} // verus!
