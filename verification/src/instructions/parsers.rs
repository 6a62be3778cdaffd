//! The opcode classifier and the per-block instruction decoders.
//!
//! The first byte of an instruction stream selects one of five decode paths:
//! the prefix-escape byte `0xCB` routes to the prefixed table, and otherwise
//! the top two bits of the opcode select one of the four blocks. Every one of
//! the 256 possible leading bytes routes somewhere; an opcode whose semantics
//! lie outside the arithmetic family this core defines decodes to a reported
//! error, never to an abort.

use vstd::prelude::*;

use super::Instruction;
use super::execute::Add;
use super::operands::ArithSource;
use super::operands::spec_source_of_low3;

verus! {

/// The bits of an opcode that select the operation within an arithmetic
/// block.
pub const ARITH_INSTR_MASK: u8 = 0b0011_1000;

/// The position of the operation sub-field within an opcode.
pub const ARITH_INSTR_POS: u8 = 3;

/// The bits of a block 3 opcode that classify it as arithmetic-immediate.
pub const BLOCK_3_INSTR_MASK: u8 = 0b0000_0111;

/// The position of the block 3 classification sub-field within an opcode.
pub const BLOCK_3_INSTR_POS: u8 = 0;

/// Why a byte slice failed to decode into an instruction.
#[derive(Clone, Copy, Debug, PartialEq, Eq, Structural)]
pub enum DecodeError {
    /// The slice holds fewer bytes than the opcode requires.
    Invalid,
    /// The opcode is a legal byte of the instruction set, but its semantics
    /// lie outside the arithmetic family this core defines.
    Unimplemented,
}

/// A decoder that consumes a byte slice beginning at an instruction's first
/// byte and returns either the constructed instruction or a decode failure.
pub trait Decode: Sized {
    /// The error type a failed decode reports.
    type Error;

    /// The result of decoding a byte sequence with this decoder.
    spec fn spec_decode(self, bytes: Seq<u8>) -> Result<Instruction, Self::Error>;

    /// Decodes the byte slice.
    fn decode(self, bytes: &[u8]) -> (r: Result<Instruction, Self::Error>)
        ensures
            r == self.spec_decode(bytes@),
    ;
}

/// The result of decoding within a block whose opcodes this core does not yet
/// give semantics: a reported error, present so that the classifier stays
/// exhaustive over all 256 leading bytes.
pub open spec fn spec_decode_unimplemented(bytes: Seq<u8>) -> Result<Instruction, DecodeError> {
    if bytes.len() == 0 {
        Err(DecodeError::Invalid)
    } else {
        Err(DecodeError::Unimplemented)
    }
}

/// The result of decoding block 2: bits 5-3 of the opcode select the
/// operation (0 is Add, the one this core defines), bits 2-0 select the
/// operand through the shared register-encoding table, and exactly 1 byte is
/// consumed.
pub open spec fn spec_decode_block2(bytes: Seq<u8>) -> Result<Instruction, DecodeError> {
    if bytes.len() == 0 {
        Err(DecodeError::Invalid)
    } else {
        let opcode = bytes[0];
        if (opcode & ARITH_INSTR_MASK) >> ARITH_INSTR_POS == 0 {
            Ok(Instruction::AddInstr(Add(spec_source_of_low3(opcode & 7))))
        } else {
            Err(DecodeError::Unimplemented)
        }
    }
}

/// The result of decoding block 3: 2 bytes are consumed (opcode plus trailing
/// immediate); an opcode whose low 3 bits equal `0b110` is
/// arithmetic-immediate, and bits 5-3 then select the operation (0 is Add).
pub open spec fn spec_decode_block3(bytes: Seq<u8>) -> Result<Instruction, DecodeError> {
    if bytes.len() < 2 {
        Err(DecodeError::Invalid)
    } else {
        let opcode = bytes[0];
        let immediate = bytes[1];
        if (opcode & BLOCK_3_INSTR_MASK) >> BLOCK_3_INSTR_POS == 0b110 {
            if (opcode & ARITH_INSTR_MASK) >> ARITH_INSTR_POS == 0 {
                Ok(Instruction::AddInstr(Add(ArithSource::Immediate(immediate))))
            } else {
                Err(DecodeError::Unimplemented)
            }
        } else {
            Err(DecodeError::Unimplemented)
        }
    }
}

/// The result of decoding a prefixed instruction: the prefix escape plus the
/// selector byte take 2 bytes, and the prefixed table lies outside the
/// arithmetic family this core defines.
pub open spec fn spec_decode_prefixed(bytes: Seq<u8>) -> Result<Instruction, DecodeError> {
    if bytes.len() < 2 {
        Err(DecodeError::Invalid)
    } else {
        Err(DecodeError::Unimplemented)
    }
}

/// Decoder for block 0 (misc, loads and control flow).
pub struct Block0;

impl Decode for Block0 {
    type Error = DecodeError;

    open spec fn spec_decode(self, bytes: Seq<u8>) -> Result<Instruction, DecodeError> {
        spec_decode_unimplemented(bytes)
    }

    fn decode(self, bytes: &[u8]) -> (r: Result<Instruction, DecodeError>) {
        if bytes.len() == 0 {
            Err(DecodeError::Invalid)
        } else {
            Err(DecodeError::Unimplemented)
        }
    }
}

/// Decoder for block 1 (register-to-register load and halt).
pub struct Block1;

impl Decode for Block1 {
    type Error = DecodeError;

    open spec fn spec_decode(self, bytes: Seq<u8>) -> Result<Instruction, DecodeError> {
        spec_decode_unimplemented(bytes)
    }

    fn decode(self, bytes: &[u8]) -> (r: Result<Instruction, DecodeError>) {
        if bytes.len() == 0 {
            Err(DecodeError::Invalid)
        } else {
            Err(DecodeError::Unimplemented)
        }
    }
}

/// Decoder for block 2 (8-bit arithmetic with a register, indirect or
/// accumulator operand).
pub struct Block2;

impl Decode for Block2 {
    type Error = DecodeError;

    open spec fn spec_decode(self, bytes: Seq<u8>) -> Result<Instruction, DecodeError> {
        spec_decode_block2(bytes)
    }

    fn decode(self, bytes: &[u8]) -> (r: Result<Instruction, DecodeError>) {
        if bytes.len() == 0 {
            return Err(DecodeError::Invalid);
        }
        let opcode = bytes[0];

        // The opcode without the bits encoding the block and the source
        // register.
        let instr: u8 = (opcode & ARITH_INSTR_MASK) >> ARITH_INSTR_POS;

        if instr == 0 {
            Ok(Instruction::AddInstr(Add::with_source(ArithSource::from_opcode(opcode))))
        } else {
            Err(DecodeError::Unimplemented)
        }
    }
}

/// Decoder for block 3 (immediate-mode arithmetic, jumps and stack
/// operations).
pub struct Block3;

impl Decode for Block3 {
    type Error = DecodeError;

    open spec fn spec_decode(self, bytes: Seq<u8>) -> Result<Instruction, DecodeError> {
        spec_decode_block3(bytes)
    }

    fn decode(self, bytes: &[u8]) -> (r: Result<Instruction, DecodeError>) {
        if bytes.len() < 2 {
            return Err(DecodeError::Invalid);
        }
        let opcode = bytes[0];
        let immediate = bytes[1];

        // Arithmetic operations in block 3 end with 110.
        let is_arithmetic: bool = (opcode & BLOCK_3_INSTR_MASK) >> BLOCK_3_INSTR_POS == 0b110;

        if is_arithmetic {
            // The opcode without the bits encoding the block and the
            // arithmetic instruction.
            let instr: u8 = (opcode & ARITH_INSTR_MASK) >> ARITH_INSTR_POS;

            if instr == 0 {
                Ok(Instruction::AddInstr(Add::with_source(ArithSource::from_literal(immediate))))
            } else {
                Err(DecodeError::Unimplemented)
            }
        } else {
            Err(DecodeError::Unimplemented)
        }
    }
}

/// Decoder for the prefixed (bit/rotate/shift) instruction table that the
/// `0xCB` escape byte selects.
pub struct Prefixed;

impl Decode for Prefixed {
    type Error = DecodeError;

    open spec fn spec_decode(self, bytes: Seq<u8>) -> Result<Instruction, DecodeError> {
        spec_decode_prefixed(bytes)
    }

    fn decode(self, bytes: &[u8]) -> (r: Result<Instruction, DecodeError>) {
        if bytes.len() < 2 {
            Err(DecodeError::Invalid)
        } else {
            Err(DecodeError::Unimplemented)
        }
    }
}

/// The decode path a leading opcode byte selects.
pub enum InstructionDecoder {
    /// Block 0 was selected.
    Block0Decoder(Block0),
    /// Block 1 was selected.
    Block1Decoder(Block1),
    /// Block 2 was selected.
    Block2Decoder(Block2),
    /// Block 3 was selected.
    Block3Decoder(Block3),
    /// The prefix escape byte was seen.
    PrefixedDecoder(Prefixed),
}

/// The first byte of an instruction.
pub type Opcode = u8;

/// The decode path an opcode routes to: the prefix escape byte selects the
/// prefixed table, and the top two bits select the block otherwise.
pub open spec fn spec_decoder_of(opcode: Opcode) -> InstructionDecoder {
    if opcode == 0xCB {
        InstructionDecoder::PrefixedDecoder(Prefixed)
    } else {
        let block = (opcode & 0xC0) >> 6;
        if block == 0 {
            InstructionDecoder::Block0Decoder(Block0)
        } else if block == 1 {
            InstructionDecoder::Block1Decoder(Block1)
        } else if block == 2 {
            InstructionDecoder::Block2Decoder(Block2)
        } else {
            InstructionDecoder::Block3Decoder(Block3)
        }
    }
}

impl From<Opcode> for InstructionDecoder {
    fn from(opcode: Opcode) -> (r: Self) {
        let block: u8 = (opcode & 0xC0) >> 6;
        let is_prefixed: bool = opcode == 0xCB;

        if is_prefixed {
            return Self::PrefixedDecoder(Prefixed);
        }
        match block {
            0 => Self::Block0Decoder(Block0),
            1 => Self::Block1Decoder(Block1),
            2 => Self::Block2Decoder(Block2),
            // A 2-bit field leaves 3 as the only remaining value.
            _ => Self::Block3Decoder(Block3),
        }
    }
}

impl vstd::std_specs::convert::FromSpecImpl<Opcode> for InstructionDecoder {
    open spec fn obeys_from_spec() -> bool {
        true
    }

    open spec fn from_spec(opcode: Opcode) -> Self {
        spec_decoder_of(opcode)
    }
}

impl Decode for InstructionDecoder {
    type Error = DecodeError;

    open spec fn spec_decode(self, bytes: Seq<u8>) -> Result<Instruction, DecodeError> {
        match self {
            InstructionDecoder::Block0Decoder(p) => p.spec_decode(bytes),
            InstructionDecoder::Block1Decoder(p) => p.spec_decode(bytes),
            InstructionDecoder::Block2Decoder(p) => p.spec_decode(bytes),
            InstructionDecoder::Block3Decoder(p) => p.spec_decode(bytes),
            InstructionDecoder::PrefixedDecoder(p) => p.spec_decode(bytes),
        }
    }

    fn decode(self, rom_slice: &[u8]) -> (r: Result<Instruction, DecodeError>) {
        match self {
            Self::Block0Decoder(p) => p.decode(rom_slice),
            Self::Block1Decoder(p) => p.decode(rom_slice),
            Self::Block2Decoder(p) => p.decode(rom_slice),
            Self::Block3Decoder(p) => p.decode(rom_slice),
            Self::PrefixedDecoder(p) => p.decode(rom_slice),
        }
    }
}

/// The result of decoding a byte sequence from its start: the leading byte
/// routes to a decode path, and that path's decoder reads the sub-fields. An
/// empty sequence holds no opcode at all.
pub open spec fn spec_decode_bytes(bytes: Seq<u8>) -> Result<Instruction, DecodeError> {
    if bytes.len() == 0 {
        Err(DecodeError::Invalid)
    } else {
        spec_decoder_of(bytes[0]).spec_decode(bytes)
    }
}

/// Law: for every value `k` of the low 3 opcode bits, the register-operand
/// Add opcode `0x80 + k` decodes, alone in a 1-byte slice, to the add on the
/// operand source the shared register-encoding table names for `k`.
pub proof fn lemma_decode_add_register(k: u8)
    requires
        k < 8,
    ensures
        spec_decode_bytes(seq![(0x80 + k) as u8]) == Ok::<Instruction, DecodeError>(
            Instruction::AddInstr(Add(spec_source_of_low3(k))),
        ),
{
    let o: u8 = (0x80 + k) as u8;
    assert(o != 0xCB && (o & 0xC0) >> 6 == 2 && (o & 0x38) >> 3 == 0 && o & 7 == k)
        by (bit_vector)
        requires
            o == (0x80 + k) as u8,
            k < 8,
    ;
}

/// Law: the immediate-mode Add opcode followed by any immediate byte decodes
/// to the add on that embedded literal, consuming both bytes.
pub proof fn lemma_decode_add_immediate(imm: u8)
    ensures
        spec_decode_bytes(seq![0xC6u8, imm]) == Ok::<Instruction, DecodeError>(
            Instruction::AddInstr(Add(ArithSource::Immediate(imm))),
        ),
{
    assert((0xC6u8 & 0xC0) >> 6 == 3 && (0xC6u8 & 7) >> 0 == 6 && (0xC6u8 & 0x38) >> 3 == 0)
        by (bit_vector);
}

/// Law: every opcode that consumes a trailing byte beyond the leading one —
/// all of block 3, the immediate-mode arithmetic opcodes among them, and the
/// prefix escape — fails to decode from a 1-byte slice with a reported
/// error, rather than panicking or reading out of bounds.
pub proof fn lemma_truncated_decode_fails(opcode: u8)
    requires
        opcode & 0xC0 == 0xC0,
    ensures
        spec_decode_bytes(seq![opcode]) == Err::<Instruction, DecodeError>(DecodeError::Invalid),
{
    assert((opcode & 0xC0) >> 6 == 3) by (bit_vector)
        requires
            opcode & 0xC0 == 0xC0,
    ;
}

} // verus!
