//! Instruction decode/execute core of an 8-bit CPU interpreter in the style of
//! the Game Boy's SM83 family.
//!
//! The crate models the register file and flags register, classifies the
//! opcode space into blocks, decodes the 8-bit arithmetic family into
//! instruction values, and executes them against a [`CpuState`], with the
//! documented carry/half-carry/zero/subtract flag semantics and program
//! counter advancement proved exact.

use vstd::prelude::*;

pub mod instructions;
pub mod registers;

use instructions::Executable;
use instructions::Instruction;
use instructions::InstructionError;
use instructions::spec_from_bytes;
use registers::Flags;
use registers::FlagsView;
use registers::RawRegisters;

verus! {

/// The full state of the emulated CPU: the register file, the flags register
/// and the byte-addressable memory image that instructions are fetched from
/// and that indirect operands read through.
///
/// Addresses at or beyond the end of the loaded image read as zero, standing
/// in for unmapped memory.
pub struct CpuState {
    /// The register file.
    pub regs: RawRegisters,
    /// The flags register.
    pub flags: Flags,
    /// The memory image, indexed from address zero.
    pub mem: Vec<u8>,
}

/// The byte that an address reads in a memory image: the byte of the image
/// when the address is in range, zero otherwise.
pub open spec fn spec_mem_byte(mem: Seq<u8>, addr: u16) -> u8 {
    if (addr as int) < mem.len() {
        mem[addr as int]
    } else {
        0
    }
}

impl CpuState {
    /// Constructs the state the interpreter starts from: all registers, flags
    /// and the program counter zero, and no memory image loaded.
    pub fn new() -> (s: Self)
        ensures
            s.regs == RawRegisters::spec_zeroed(),
            s.flags@ == FlagsView::spec_clear(),
            s.mem@ == Seq::<u8>::empty(),
    {
        CpuState { regs: RawRegisters::new(), flags: Flags::new(), mem: Vec::new() }
    }

    /// The window of up to 2 bytes that one step fetches from a memory image,
    /// starting at the program counter: as many of those bytes as the image
    /// holds. No instruction consumes more.
    pub open spec fn spec_fetch_window(mem: Seq<u8>, pc: u16) -> Seq<u8> {
        if (pc as int) < mem.len() {
            if pc as int + 2 <= mem.len() {
                mem.subrange(pc as int, pc as int + 2)
            } else {
                mem.subrange(pc as int, mem.len() as int)
            }
        } else {
            Seq::empty()
        }
    }

    /// Runs one step of the interpreter loop: fetches the next instruction
    /// starting at the program counter, decodes it, and executes it against
    /// this state, which advances the program counter as part of execution.
    ///
    /// A decode failure is reported and leaves the state untouched, so a host
    /// can stop cleanly at a truncated or unsupported instruction stream.
    pub fn step(&mut self) -> (r: Result<(), InstructionError>)
        ensures
            (match spec_from_bytes(
                CpuState::spec_fetch_window(old(self).mem@, old(self).regs.pc),
            ) {
                Ok(i) => r == Ok::<(), InstructionError>(()) && i.spec_effect(
                    *old(self),
                    *final(self),
                ),
                Err(e) => r == Err::<(), InstructionError>(e) && *final(self) == *old(self),
            }),
    {
        let pc = self.regs.pc();
        let len = self.mem.len();
        let start = pc as usize;
        let mut window: Vec<u8> = Vec::new();
        if start < len {
            window.push(self.mem[start]);
            if len - start >= 2 {
                window.push(self.mem[start + 1]);
            }
        }
        proof {
            assert(window@ =~= CpuState::spec_fetch_window(self.mem@, pc));
        }
        match Instruction::from_bytes(window.as_slice()) {
            Ok(i) => {
                i.execute(self);
                Ok(())
            },
            Err(e) => Err(e),
        }
    }
}

} // verus!
