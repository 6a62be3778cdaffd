//! The register file and the flags register of the CPU.
//!
//! Seven 8-bit registers (the accumulator `A` and `B`, `C`, `D`, `E`, `H`,
//! `L`) back three 16-bit pair views `BC`, `DE` and `HL` (high byte first),
//! with a 16-bit stack pointer and a 16-bit program counter beside them. The
//! flags register keeps its four condition bits in the top nibble of one byte
//! and its low nibble always zero.

use vstd::prelude::*;

verus! {

/// The high byte of a 16-bit register pair value.
pub open spec fn spec_pair_high(v: u16) -> u8 {
    (v / 256) as u8
}

/// The low byte of a 16-bit register pair value.
pub open spec fn spec_pair_low(v: u16) -> u8 {
    (v % 256) as u8
}

/// The 16-bit value a high/low byte pair forms (big-endian pairing: the high
/// byte first).
pub open spec fn spec_pair_join(high: u8, low: u8) -> u16 {
    (high * 256 + low) as u16
}

/// Law: a 16-bit value written to a register pair splits into the same
/// high/low bytes that joining reads back, so the pair view round-trips.
pub proof fn lemma_pair_split_join(v: u16)
    ensures
        spec_pair_join(spec_pair_high(v), spec_pair_low(v)) == v,
{
}

/// Law: joining a high and a low byte and splitting again yields the same
/// bytes, so the 8-bit accessors observe exactly what the pair write stored.
pub proof fn lemma_pair_join_split(high: u8, low: u8)
    ensures
        spec_pair_high(spec_pair_join(high, low)) == high,
        spec_pair_low(spec_pair_join(high, low)) == low,
{
}

/// The readable and writable CPU registers: the accumulator, the six
/// pair-forming 8-bit registers, the stack pointer and the program counter.
///
/// There is no separate storage for the 16-bit pair views `BC`, `DE` and
/// `HL`: they are computed from, and split back into, the two backing bytes.
#[derive(Clone, Copy, Debug, PartialEq, Eq, Structural)]
pub struct RawRegisters {
    /// Stack pointer.
    pub sp: u16,
    /// Program counter.
    pub pc: u16,
    /// Accumulator register, i.e. the `A` register.
    pub acc: u8,
    /// The `B` register, high byte of `BC`.
    pub b: u8,
    /// The `C` register, low byte of `BC`.
    pub c: u8,
    /// The `D` register, high byte of `DE`.
    pub d: u8,
    /// The `E` register, low byte of `DE`.
    pub e: u8,
    /// The `H` register, high byte of `HL`.
    pub h: u8,
    /// The `L` register, low byte of `HL`.
    pub l: u8,
}

impl RawRegisters {
    /// The register file with every register zero.
    pub open spec fn spec_zeroed() -> RawRegisters {
        RawRegisters { sp: 0, pc: 0, acc: 0, b: 0, c: 0, d: 0, e: 0, h: 0, l: 0 }
    }

    /// Constructs a new register file with all values zeroed.
    pub fn new() -> (r: Self)
        ensures
            r == RawRegisters::spec_zeroed(),
    {
        RawRegisters { sp: 0, pc: 0, acc: 0, b: 0, c: 0, d: 0, e: 0, h: 0, l: 0 }
    }

    /// Reads the stack pointer.
    pub fn sp(&self) -> (r: u16)
        ensures
            r == self.sp,
    {
        self.sp
    }

    /// Writes the stack pointer.
    pub fn set_sp(&mut self, val: u16)
        ensures
            *final(self) == (RawRegisters { sp: val, ..*old(self) }),
    {
        self.sp = val;
    }

    /// Reads the program counter.
    pub fn pc(&self) -> (r: u16)
        ensures
            r == self.pc,
    {
        self.pc
    }

    /// Writes the program counter.
    pub fn set_pc(&mut self, val: u16)
        ensures
            *final(self) == (RawRegisters { pc: val, ..*old(self) }),
    {
        self.pc = val;
    }

    /// Reads the accumulator.
    pub fn acc(&self) -> (r: u8)
        ensures
            r == self.acc,
    {
        self.acc
    }

    /// Writes the accumulator.
    pub fn set_acc(&mut self, val: u8)
        ensures
            *final(self) == (RawRegisters { acc: val, ..*old(self) }),
    {
        self.acc = val;
    }

    /// Reads the `B` register.
    pub fn b(&self) -> (r: u8)
        ensures
            r == self.b,
    {
        self.b
    }

    /// Writes the `B` register.
    pub fn set_b(&mut self, val: u8)
        ensures
            *final(self) == (RawRegisters { b: val, ..*old(self) }),
    {
        self.b = val;
    }

    /// Reads the `C` register.
    pub fn c(&self) -> (r: u8)
        ensures
            r == self.c,
    {
        self.c
    }

    /// Writes the `C` register.
    pub fn set_c(&mut self, val: u8)
        ensures
            *final(self) == (RawRegisters { c: val, ..*old(self) }),
    {
        self.c = val;
    }

    /// Reads the `D` register.
    pub fn d(&self) -> (r: u8)
        ensures
            r == self.d,
    {
        self.d
    }

    /// Writes the `D` register.
    pub fn set_d(&mut self, val: u8)
        ensures
            *final(self) == (RawRegisters { d: val, ..*old(self) }),
    {
        self.d = val;
    }

    /// Reads the `E` register.
    pub fn e(&self) -> (r: u8)
        ensures
            r == self.e,
    {
        self.e
    }

    /// Writes the `E` register.
    pub fn set_e(&mut self, val: u8)
        ensures
            *final(self) == (RawRegisters { e: val, ..*old(self) }),
    {
        self.e = val;
    }

    /// Reads the `H` register.
    pub fn h(&self) -> (r: u8)
        ensures
            r == self.h,
    {
        self.h
    }

    /// Writes the `H` register.
    pub fn set_h(&mut self, val: u8)
        ensures
            *final(self) == (RawRegisters { h: val, ..*old(self) }),
    {
        self.h = val;
    }

    /// Reads the `L` register.
    pub fn l(&self) -> (r: u8)
        ensures
            r == self.l,
    {
        self.l
    }

    /// Writes the `L` register.
    pub fn set_l(&mut self, val: u8)
        ensures
            *final(self) == (RawRegisters { l: val, ..*old(self) }),
    {
        self.l = val;
    }

    /// Reads the `BC` pair, formed from the `B` (high) and `C` (low) bytes.
    pub fn bc(&self) -> (r: u16)
        ensures
            r == spec_pair_join(self.b, self.c),
    {
        self.b as u16 * 256 + self.c as u16
    }

    /// Writes the `BC` pair, splitting the value into the `B` (high) and `C`
    /// (low) bytes.
    pub fn set_bc(&mut self, val: u16)
        ensures
            *final(self) == (RawRegisters {
                b: spec_pair_high(val),
                c: spec_pair_low(val),
                ..*old(self)
            }),
    {
        self.b = (val / 256) as u8;
        self.c = (val % 256) as u8;
    }

    /// Reads the `DE` pair, formed from the `D` (high) and `E` (low) bytes.
    pub fn de(&self) -> (r: u16)
        ensures
            r == spec_pair_join(self.d, self.e),
    {
        self.d as u16 * 256 + self.e as u16
    }

    /// Writes the `DE` pair, splitting the value into the `D` (high) and `E`
    /// (low) bytes.
    pub fn set_de(&mut self, val: u16)
        ensures
            *final(self) == (RawRegisters {
                d: spec_pair_high(val),
                e: spec_pair_low(val),
                ..*old(self)
            }),
    {
        self.d = (val / 256) as u8;
        self.e = (val % 256) as u8;
    }

    /// Reads the `HL` pair, formed from the `H` (high) and `L` (low) bytes.
    pub fn hl(&self) -> (r: u16)
        ensures
            r == spec_pair_join(self.h, self.l),
    {
        self.h as u16 * 256 + self.l as u16
    }

    /// Writes the `HL` pair, splitting the value into the `H` (high) and `L`
    /// (low) bytes.
    pub fn set_hl(&mut self, val: u16)
        ensures
            *final(self) == (RawRegisters {
                h: spec_pair_high(val),
                l: spec_pair_low(val),
                ..*old(self)
            }),
    {
        self.h = (val / 256) as u8;
        self.l = (val % 256) as u8;
    }
}

/// A register designator that can read a value of type `T` out of the
/// register file and write one back.
pub trait RwRegister<T>: Sized {
    /// The value this designator selects from a register file.
    spec fn spec_read(self, regs: RawRegisters) -> T;

    /// The register file after writing `val` through this designator.
    spec fn spec_write(self, regs: RawRegisters, val: T) -> RawRegisters;

    /// Reads the designated register.
    fn read(&self, regs: &RawRegisters) -> (r: T)
        ensures
            r == self.spec_read(*regs),
    ;

    /// Writes the designated register, leaving every other register as it
    /// was.
    fn write(&self, regs: &mut RawRegisters, val: T)
        ensures
            *final(regs) == self.spec_write(*old(regs), val),
    ;
}

/// A named CPU register: an 8-bit register, a 16-bit pair view, or one of the
/// 16-bit counters.
#[derive(Clone, Copy, Debug, PartialEq, Eq, Structural)]
pub enum Register {
    /// The accumulator.
    Acc,
    /// The `B` register.
    B,
    /// The `C` register.
    C,
    /// The `D` register.
    D,
    /// The `E` register.
    E,
    /// The `H` register.
    H,
    /// The `L` register.
    L,
    /// The `BC` pair view.
    BC,
    /// The `DE` pair view.
    DE,
    /// The `HL` pair view.
    HL,
    /// The stack pointer.
    SP,
    /// The program counter.
    PC,
}

/// A named 8-bit CPU register.
#[derive(Clone, Copy, Debug, PartialEq, Eq, Structural)]
pub enum Reg8 {
    /// The accumulator.
    Acc,
    /// The `B` register.
    B,
    /// The `C` register.
    C,
    /// The `D` register.
    D,
    /// The `E` register.
    E,
    /// The `H` register.
    H,
    /// The `L` register.
    L,
}

impl RwRegister<u8> for Reg8 {
    open spec fn spec_read(self, regs: RawRegisters) -> u8 {
        match self {
            Reg8::Acc => regs.acc,
            Reg8::B => regs.b,
            Reg8::C => regs.c,
            Reg8::D => regs.d,
            Reg8::E => regs.e,
            Reg8::H => regs.h,
            Reg8::L => regs.l,
        }
    }

    open spec fn spec_write(self, regs: RawRegisters, val: u8) -> RawRegisters {
        match self {
            Reg8::Acc => RawRegisters { acc: val, ..regs },
            Reg8::B => RawRegisters { b: val, ..regs },
            Reg8::C => RawRegisters { c: val, ..regs },
            Reg8::D => RawRegisters { d: val, ..regs },
            Reg8::E => RawRegisters { e: val, ..regs },
            Reg8::H => RawRegisters { h: val, ..regs },
            Reg8::L => RawRegisters { l: val, ..regs },
        }
    }

    fn read(&self, regs: &RawRegisters) -> (r: u8) {
        match *self {
            Reg8::Acc => regs.acc(),
            Reg8::B => regs.b(),
            Reg8::C => regs.c(),
            Reg8::D => regs.d(),
            Reg8::E => regs.e(),
            Reg8::H => regs.h(),
            Reg8::L => regs.l(),
        }
    }

    fn write(&self, regs: &mut RawRegisters, val: u8) {
        match *self {
            Reg8::Acc => regs.set_acc(val),
            Reg8::B => regs.set_b(val),
            Reg8::C => regs.set_c(val),
            Reg8::D => regs.set_d(val),
            Reg8::E => regs.set_e(val),
            Reg8::H => regs.set_h(val),
            Reg8::L => regs.set_l(val),
        }
    }
}

/// A named 16-bit CPU register: a pair view or the stack pointer.
#[derive(Clone, Copy, Debug, PartialEq, Eq, Structural)]
pub enum Reg16 {
    /// The `BC` pair view.
    BC,
    /// The `DE` pair view.
    DE,
    /// The `HL` pair view.
    HL,
    /// The stack pointer.
    SP,
}

impl RwRegister<u16> for Reg16 {
    open spec fn spec_read(self, regs: RawRegisters) -> u16 {
        match self {
            Reg16::BC => spec_pair_join(regs.b, regs.c),
            Reg16::DE => spec_pair_join(regs.d, regs.e),
            Reg16::HL => spec_pair_join(regs.h, regs.l),
            Reg16::SP => regs.sp,
        }
    }

    open spec fn spec_write(self, regs: RawRegisters, val: u16) -> RawRegisters {
        match self {
            Reg16::BC => RawRegisters {
                b: spec_pair_high(val),
                c: spec_pair_low(val),
                ..regs
            },
            Reg16::DE => RawRegisters {
                d: spec_pair_high(val),
                e: spec_pair_low(val),
                ..regs
            },
            Reg16::HL => RawRegisters {
                h: spec_pair_high(val),
                l: spec_pair_low(val),
                ..regs
            },
            Reg16::SP => RawRegisters { sp: val, ..regs },
        }
    }

    fn read(&self, regs: &RawRegisters) -> (r: u16) {
        match *self {
            Reg16::BC => regs.bc(),
            Reg16::DE => regs.de(),
            Reg16::HL => regs.hl(),
            Reg16::SP => regs.sp(),
        }
    }

    fn write(&self, regs: &mut RawRegisters, val: u16) {
        match *self {
            Reg16::BC => regs.set_bc(val),
            Reg16::DE => regs.set_de(val),
            Reg16::HL => regs.set_hl(val),
            Reg16::SP => regs.set_sp(val),
        }
    }
}

/// The observable content of the flags register: the four condition bits.
///
/// In the stored byte, `Zero` is bit 7, `Subtract` bit 6, `Half-carry` bit 5
/// and `Carry` bit 4; bits 3 to 0 are always zero.
#[derive(Clone, Copy, Debug, PartialEq, Eq, Structural)]
pub struct FlagsView {
    /// Set when the result of an operation is 0.
    pub zero: bool,
    /// Set when the last operation was a subtraction.
    pub subtract: bool,
    /// Set on a carry out of bit 3 (the low nibble) of the result.
    pub half_carry: bool,
    /// Set when the result of the previous operation overflowed.
    pub carry: bool,
}

impl FlagsView {
    /// The view with all four flags cleared.
    pub open spec fn spec_clear() -> FlagsView {
        FlagsView { zero: false, subtract: false, half_carry: false, carry: false }
    }
}

/// The byte the flags register stores for a given view: the four condition
/// bits in the top nibble, the low nibble zero.
pub open spec fn spec_flags_byte(v: FlagsView) -> u8 {
    (((if v.zero { 0x80int } else { 0int }) + (if v.subtract { 0x40int } else { 0int }) + (
    if v.half_carry {
        0x20int
    } else {
        0int
    }) + (if v.carry { 0x10int } else { 0int })) as u8)
}

/// The view a byte written to the flags register takes: each condition bit is
/// read from its fixed position, and the low nibble is discarded.
pub open spec fn spec_flags_of_byte(val: u8) -> FlagsView {
    FlagsView {
        zero: (val >> 7) & 1 == 1,
        subtract: (val >> 6) & 1 == 1,
        half_carry: (val >> 5) & 1 == 1,
        carry: (val >> 4) & 1 == 1,
    }
}

/// The flags register of the CPU.
///
/// One byte; only bits 7 to 4 are meaningful (`Zero`, `Subtract`,
/// `Half-carry`, `Carry` in descending bit order) and bits 3 to 0 are always
/// zero — every write path maintains that invariant.
#[derive(Debug)]
pub struct Flags {
    bits: u8,
}

impl View for Flags {
    type V = FlagsView;

    closed spec fn view(&self) -> FlagsView {
        FlagsView {
            zero: (self.bits >> 7) & 1 == 1,
            subtract: (self.bits >> 6) & 1 == 1,
            half_carry: (self.bits >> 5) & 1 == 1,
            carry: (self.bits >> 4) & 1 == 1,
        }
    }
}

impl Flags {
    #[verifier::type_invariant]
    spec fn inv(self) -> bool {
        self.bits & 0x0F == 0
    }

    /// Constructs a new flags register with all bits zeroed.
    pub fn new() -> (r: Self)
        ensures
            r@ == FlagsView::spec_clear(),
    {
        proof {
            assert((0u8 >> 7) & 1 != 1 && (0u8 >> 6) & 1 != 1 && (0u8 >> 5) & 1 != 1 && (0u8 >> 4)
                & 1 != 1 && 0u8 & 0x0F == 0) by (bit_vector);
        }
        Flags { bits: 0 }
    }

    /// Reads the byte value stored in the flags register.
    pub fn value(&self) -> (r: u8)
        ensures
            r == spec_flags_byte(self@),
    {
        proof {
            use_type_invariant(&*self);
            let bits = self.bits;
            assert(bits == ((if (bits >> 7) & 1 == 1 { 0x80u8 } else { 0u8 }) + (if (bits >> 6) & 1
                == 1 { 0x40u8 } else { 0u8 }) + (if (bits >> 5) & 1 == 1 { 0x20u8 } else { 0u8 }) + (
            if (bits >> 4) & 1 == 1 {
                0x10u8
            } else {
                0u8
            }))) by (bit_vector)
                requires
                    bits & 0x0F == 0,
            ;
        }
        self.bits
    }

    /// Sets the flags register from a byte value. The low 4 bits of the flags
    /// register are required to always be zero, so those bits of the value
    /// are ignored.
    pub fn set(&mut self, val: u8)
        ensures
            final(self)@ == spec_flags_of_byte(val),
    {
        let masked: u8 = val & 0xF0;
        proof {
            assert(masked & 0x0F == 0 && ((masked >> 7) & 1) == ((val >> 7) & 1) && ((masked >> 6)
                & 1) == ((val >> 6) & 1) && ((masked >> 5) & 1) == ((val >> 5) & 1) && ((masked
                >> 4) & 1) == ((val >> 4) & 1)) by (bit_vector)
                requires
                    masked == val & 0xF0,
            ;
        }
        self.bits = masked;
    }

    /// Clears all bits of the flags register.
    pub fn clear(&mut self)
        ensures
            final(self)@ == FlagsView::spec_clear(),
    {
        proof {
            assert((0u8 >> 7) & 1 != 1 && (0u8 >> 6) & 1 != 1 && (0u8 >> 5) & 1 != 1 && (0u8 >> 4)
                & 1 != 1 && 0u8 & 0x0F == 0) by (bit_vector);
        }
        self.bits = 0x00;
    }

    /// Reads the zero flag.
    pub fn zero(&self) -> (r: bool)
        ensures
            r == self@.zero,
    {
        (self.bits >> 7) & 1 == 1
    }

    /// Sets or clears the zero flag, leaving the other flags as they were.
    pub fn set_zero(&mut self, val: bool)
        ensures
            final(self)@ == (FlagsView { zero: val, ..old(self)@ }),
    {
        proof {
            use_type_invariant(&*self);
        }
        let bits: u8 = self.bits;
        let new_bits: u8 = (bits & 0x7F) | (if val { 0x80 } else { 0 });
        proof {
            assert(new_bits & 0x0F == 0 && (((new_bits >> 7) & 1 == 1) == val) && ((new_bits >> 6)
                & 1) == ((bits >> 6) & 1) && ((new_bits >> 5) & 1) == ((bits >> 5) & 1) && ((
            new_bits >> 4) & 1) == ((bits >> 4) & 1)) by (bit_vector)
                requires
                    new_bits == (bits & 0x7F) | (if val { 0x80u8 } else { 0u8 }),
                    bits & 0x0F == 0,
            ;
        }
        self.bits = new_bits;
    }

    /// Clears the zero flag, leaving the other flags as they were.
    pub fn clear_zero(&mut self)
        ensures
            final(self)@ == (FlagsView { zero: false, ..old(self)@ }),
    {
        self.set_zero(false);
    }

    /// Reads the subtract flag.
    pub fn subtract(&self) -> (r: bool)
        ensures
            r == self@.subtract,
    {
        (self.bits >> 6) & 1 == 1
    }

    /// Sets or clears the subtract flag, leaving the other flags as they
    /// were.
    pub fn set_subtract(&mut self, val: bool)
        ensures
            final(self)@ == (FlagsView { subtract: val, ..old(self)@ }),
    {
        proof {
            use_type_invariant(&*self);
        }
        let bits: u8 = self.bits;
        let new_bits: u8 = (bits & 0xBF) | (if val { 0x40 } else { 0 });
        proof {
            assert(new_bits & 0x0F == 0 && (((new_bits >> 6) & 1 == 1) == val) && ((new_bits >> 7)
                & 1) == ((bits >> 7) & 1) && ((new_bits >> 5) & 1) == ((bits >> 5) & 1) && ((
            new_bits >> 4) & 1) == ((bits >> 4) & 1)) by (bit_vector)
                requires
                    new_bits == (bits & 0xBF) | (if val { 0x40u8 } else { 0u8 }),
                    bits & 0x0F == 0,
            ;
        }
        self.bits = new_bits;
    }

    /// Clears the subtract flag, leaving the other flags as they were.
    pub fn clear_subtract(&mut self)
        ensures
            final(self)@ == (FlagsView { subtract: false, ..old(self)@ }),
    {
        self.set_subtract(false);
    }

    /// Reads the half-carry flag.
    pub fn half_carry(&self) -> (r: bool)
        ensures
            r == self@.half_carry,
    {
        (self.bits >> 5) & 1 == 1
    }

    /// Sets or clears the half-carry flag, leaving the other flags as they
    /// were.
    pub fn set_half_carry(&mut self, val: bool)
        ensures
            final(self)@ == (FlagsView { half_carry: val, ..old(self)@ }),
    {
        proof {
            use_type_invariant(&*self);
        }
        let bits: u8 = self.bits;
        let new_bits: u8 = (bits & 0xDF) | (if val { 0x20 } else { 0 });
        proof {
            assert(new_bits & 0x0F == 0 && (((new_bits >> 5) & 1 == 1) == val) && ((new_bits >> 7)
                & 1) == ((bits >> 7) & 1) && ((new_bits >> 6) & 1) == ((bits >> 6) & 1) && ((
            new_bits >> 4) & 1) == ((bits >> 4) & 1)) by (bit_vector)
                requires
                    new_bits == (bits & 0xDF) | (if val { 0x20u8 } else { 0u8 }),
                    bits & 0x0F == 0,
            ;
        }
        self.bits = new_bits;
    }

    /// Clears the half-carry flag, leaving the other flags as they were.
    pub fn clear_half_carry(&mut self)
        ensures
            final(self)@ == (FlagsView { half_carry: false, ..old(self)@ }),
    {
        self.set_half_carry(false);
    }

    /// Reads the carry flag.
    pub fn carry(&self) -> (r: bool)
        ensures
            r == self@.carry,
    {
        (self.bits >> 4) & 1 == 1
    }

    /// Sets or clears the carry flag, leaving the other flags as they were.
    pub fn set_carry(&mut self, val: bool)
        ensures
            final(self)@ == (FlagsView { carry: val, ..old(self)@ }),
    {
        proof {
            use_type_invariant(&*self);
        }
        let bits: u8 = self.bits;
        let new_bits: u8 = (bits & 0xEF) | (if val { 0x10 } else { 0 });
        proof {
            assert(new_bits & 0x0F == 0 && (((new_bits >> 4) & 1 == 1) == val) && ((new_bits >> 7)
                & 1) == ((bits >> 7) & 1) && ((new_bits >> 6) & 1) == ((bits >> 6) & 1) && ((
            new_bits >> 5) & 1) == ((bits >> 5) & 1)) by (bit_vector)
                requires
                    new_bits == (bits & 0xEF) | (if val { 0x10u8 } else { 0u8 }),
                    bits & 0x0F == 0,
            ;
        }
        self.bits = new_bits;
    }

    /// Clears the carry flag, leaving the other flags as they were.
    pub fn clear_carry(&mut self)
        ensures
            final(self)@ == (FlagsView { carry: false, ..old(self)@ }),
    {
        self.set_carry(false);
    }
}

} // verus!
