//! Tests for the register file, the 16-bit pair views and the flags register.

use gb_cpu::registers::Flags;
use gb_cpu::registers::RawRegisters;
use gb_cpu::registers::Reg16;
use gb_cpu::registers::Reg8;
use gb_cpu::registers::RwRegister;

#[test]
fn test_getters() {
    let regs = RawRegisters {
        sp: 0xFF00,
        pc: 0x0000,
        acc: 0xF0,
        b: 0xF1,
        c: 0x00,
        d: 0xF2,
        e: 0x01,
        h: 0xF3,
        l: 0x02,
    };
    assert_eq!(regs.sp(), 0xFF00);
    assert_eq!(regs.acc(), 0xF0);
    assert_eq!(regs.b(), 0xF1);
    assert_eq!(regs.c(), 0x00);
    assert_eq!(regs.bc(), 0xF100);
    assert_eq!(regs.d(), 0xF2);
    assert_eq!(regs.e(), 0x01);
    assert_eq!(regs.de(), 0xF201);
    assert_eq!(regs.h(), 0xF3);
    assert_eq!(regs.l(), 0x02);
    assert_eq!(regs.hl(), 0xF302);
}

#[test]
fn test_setters() {
    let mut regs = RawRegisters::new();
    regs.set_acc(0xFF);
    regs.set_bc(0xCAFE);
    regs.set_h(0xAB);
    assert_eq!(regs.acc, 0xFF);
    assert_eq!(regs.b, 0xCA);
    assert_eq!(regs.c, 0xFE);
    assert_eq!(regs.h, 0xAB);
}

#[test]
fn test_rw() {
    let mut regs = RawRegisters::new();
    Reg8::Acc.write(&mut regs, 0xFF);
    Reg16::BC.write(&mut regs, 0xCAFE);
    Reg8::H.write(&mut regs, 0xAB);
    assert!(regs.acc == 0xFF && regs.acc == Reg8::Acc.read(&regs));
    assert!(regs.b == 0xCA && regs.b == Reg8::B.read(&regs));
    assert!(regs.c == 0xFE && regs.c == Reg8::C.read(&regs));
    assert!(regs.bc() == 0xCAFE && regs.bc() == Reg16::BC.read(&regs));
    assert!(regs.h == 0xAB && regs.h == Reg8::H.read(&regs));
}

#[test]
fn test_set_get_flags() {
    let mut f = Flags::new();
    f.set_zero(true);
    assert_eq!(f.value(), 0b10000000);
    f.set_carry(true);
    assert_eq!(f.value(), 0b10010000);
    f.set(0xFF);
    assert_eq!(f.value(), 0b11110000);
    assert!(
        [f.zero(), f.subtract(), f.half_carry(), f.carry()]
            .iter()
            .all(|&x| x)
    );
}

#[test]
fn test_clear_flags() {
    let mut f = Flags::new();
    f.set(0xF0);
    f.clear_zero();
    assert!(!f.zero());
    f.clear_subtract();
    assert!(!f.subtract());
    f.clear_half_carry();
    assert!(!f.half_carry());
    f.clear_carry();
    assert!(!f.carry());
    f.set(0xF0);
    f.clear();
    assert_eq!(f.value(), 0x00);
}

#[test]
fn test_pair_round_trip() {
    // Writing the BC pair splits into the same high/low bytes the 8-bit
    // accessors observe, and reading the pair again joins them back.
    let mut regs = RawRegisters::new();
    regs.set_bc(0xCAFE);
    assert_eq!(regs.b(), 0xCA);
    assert_eq!(regs.c(), 0xFE);
    assert_eq!(regs.bc(), 0xCAFE);

    regs.set_de(0x1234);
    assert_eq!(regs.d(), 0x12);
    assert_eq!(regs.e(), 0x34);
    assert_eq!(regs.de(), 0x1234);

    regs.set_hl(0x00FF);
    assert_eq!(regs.h(), 0x00);
    assert_eq!(regs.l(), 0xFF);
    assert_eq!(regs.hl(), 0x00FF);
}

#[test]
fn test_flags_set_masks_low_nibble() {
    // A bulk write through the byte-level setter discards the low nibble.
    let mut f = Flags::new();
    f.set(0x0F);
    assert_eq!(f.value(), 0x00);
    assert!(!f.zero() && !f.subtract() && !f.half_carry() && !f.carry());
    f.set(0xA5);
    assert_eq!(f.value(), 0xA0);
    assert!(f.zero());
    assert!(!f.subtract());
    assert!(f.half_carry());
    assert!(!f.carry());
}

#[test]
fn test_flags_individual_bits() {
    let mut f = Flags::new();
    f.set_subtract(true);
    assert_eq!(f.value(), 0b01000000);
    f.set_half_carry(true);
    assert_eq!(f.value(), 0b01100000);
    f.set_subtract(false);
    assert_eq!(f.value(), 0b00100000);
    assert!(!f.zero() && !f.subtract() && f.half_carry() && !f.carry());
}

#[test]
fn test_rw_register_de_hl_sp() {
    let mut regs = RawRegisters::new();
    Reg16::DE.write(&mut regs, 0xBEEF);
    Reg16::HL.write(&mut regs, 0x8001);
    Reg16::SP.write(&mut regs, 0xFFFE);
    assert_eq!(Reg16::DE.read(&regs), 0xBEEF);
    assert_eq!(regs.d, 0xBE);
    assert_eq!(regs.e, 0xEF);
    assert_eq!(Reg16::HL.read(&regs), 0x8001);
    assert_eq!(Reg16::SP.read(&regs), 0xFFFE);
    assert_eq!(regs.sp(), 0xFFFE);

    Reg8::D.write(&mut regs, 0x01);
    Reg8::E.write(&mut regs, 0x02);
    Reg8::L.write(&mut regs, 0x03);
    assert_eq!(Reg8::D.read(&regs), 0x01);
    assert_eq!(Reg8::E.read(&regs), 0x02);
    assert_eq!(Reg8::L.read(&regs), 0x03);
    assert_eq!(regs.de(), 0x0102);
}
