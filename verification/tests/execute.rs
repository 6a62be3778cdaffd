//! Tests for the Add execution semantics: accumulator, flags and program
//! counter.

use gb_cpu::CpuState;
use gb_cpu::instructions::Executable;
use gb_cpu::instructions::Instruction;
use gb_cpu::instructions::execute::Add;
use gb_cpu::instructions::operands::ArithSource;
use gb_cpu::registers::Reg8;

#[test]
fn execute_test_add() {
    let mut state = CpuState::new();
    state.regs.set_b(0xE1);
    state.regs.set_e(0x0F);
    state.regs.set_hl(0x0000);

    Add(ArithSource::Reg(Reg8::B)).execute(&mut state);
    assert_eq!(state.regs.acc(), 0xE1);

    Add(ArithSource::Reg(Reg8::E)).execute(&mut state);
    assert_eq!(state.regs.acc(), 0xF0);
    assert!(state.flags.half_carry() == true);

    Add(ArithSource::Immediate(0x0F)).execute(&mut state);
    assert_eq!(state.regs.acc(), 0xFF);
    assert!(state.flags.half_carry() == false);

    Add(ArithSource::Immediate(0x01)).execute(&mut state);
    assert_eq!(state.regs.acc(), 0x00);
    assert!(state.flags.zero() == true);
    assert!(state.flags.carry() == true);
    assert!(state.flags.half_carry() == true);

    Add(ArithSource::Addr).execute(&mut state);
    assert_eq!(state.regs.acc(), 0x00);
    assert!(state.flags.zero() == true);
}

#[test]
fn instructions_fn_test_add() {
    let mut state = CpuState::new();
    state.regs.set_b(0xE1);
    state.regs.set_e(0x0F);
    state.regs.set_hl(0x0000);

    Add(ArithSource::Reg(Reg8::B)).execute(&mut state);
    assert_eq!(state.regs.acc(), 0xE1);

    Add(ArithSource::Reg(Reg8::E)).execute(&mut state);
    assert_eq!(state.regs.acc(), 0xF0);
    assert!(state.flags.half_carry() == true);

    Add(ArithSource::Immediate(0x0F)).execute(&mut state);
    assert_eq!(state.regs.acc(), 0xFF);
    assert!(state.flags.half_carry() == false);

    Add(ArithSource::Immediate(0x01)).execute(&mut state);
    assert_eq!(state.regs.acc(), 0x00);
    assert!(state.flags.zero() == true);
    assert!(state.flags.carry() == true);
    assert!(state.flags.half_carry() == true);

    Add(ArithSource::Addr).execute(&mut state);
    assert_eq!(state.regs.acc(), 0x00);
    assert!(state.flags.zero() == true);
}

#[test]
fn test_add_reg_scenario() {
    // Add(Reg(B)) with Acc=0xE1, B=0xE1 yields Acc=0xC2, Carry set,
    // Half-carry clear, Zero clear.
    let mut state = CpuState::new();
    state.regs.set_acc(0xE1);
    state.regs.set_b(0xE1);
    Add::with_source(ArithSource::Reg(Reg8::B)).execute(&mut state);
    assert_eq!(state.regs.acc(), 0xC2);
    assert!(state.flags.carry() == true);
    assert!(state.flags.half_carry() == false);
    assert!(state.flags.zero() == false);
    assert!(state.flags.subtract() == false);
}

#[test]
fn test_add_immediate_scenario() {
    // Add(Immediate(0x01)) with Acc=0xFF yields Acc=0x00, Zero, Carry and
    // Half-carry all set.
    let mut state = CpuState::new();
    state.regs.set_acc(0xFF);
    Add::with_source(ArithSource::Immediate(0x01)).execute(&mut state);
    assert_eq!(state.regs.acc(), 0x00);
    assert!(state.flags.zero() == true);
    assert!(state.flags.carry() == true);
    assert!(state.flags.half_carry() == true);
    assert!(state.flags.subtract() == false);
}

#[test]
fn test_pc_advance() {
    // The program counter advances by 1 for a register or indirect operand
    // and by 2 for an immediate operand, from whatever value it held.
    let mut state = CpuState::new();
    state.regs.set_pc(0x0150);
    Add(ArithSource::Reg(Reg8::B)).execute(&mut state);
    assert_eq!(state.regs.pc(), 0x0151);
    Add(ArithSource::Addr).execute(&mut state);
    assert_eq!(state.regs.pc(), 0x0152);
    Add(ArithSource::Immediate(0x05)).execute(&mut state);
    assert_eq!(state.regs.pc(), 0x0154);
}

#[test]
fn test_pc_advance_wraps() {
    let mut state = CpuState::new();
    state.regs.set_pc(0xFFFF);
    Add(ArithSource::Reg(Reg8::C)).execute(&mut state);
    assert_eq!(state.regs.pc(), 0x0000);
    state.regs.set_pc(0xFFFF);
    Add(ArithSource::Immediate(0x00)).execute(&mut state);
    assert_eq!(state.regs.pc(), 0x0001);
}

#[test]
fn test_add_indirect_reads_memory() {
    // An indirect operand reads the byte at the address held in HL.
    let mut state = CpuState::new();
    state.mem = vec![0x00, 0x22, 0x33];
    state.regs.set_hl(0x0001);
    state.regs.set_acc(0x10);
    Add(ArithSource::Addr).execute(&mut state);
    assert_eq!(state.regs.acc(), 0x32);
    assert!(state.flags.zero() == false);
    assert!(state.flags.carry() == false);
}

#[test]
fn test_add_flags_recomputed_each_instruction() {
    // All four flag bits are recomputed from scratch every instruction: a
    // carry left by one add does not survive the next.
    let mut state = CpuState::new();
    state.regs.set_acc(0xFF);
    Instruction::from_bytes(&[0xC6, 0x01])
        .unwrap()
        .execute(&mut state);
    assert!(state.flags.carry() == true);
    assert!(state.flags.zero() == true);
    Instruction::from_bytes(&[0xC6, 0x01])
        .unwrap()
        .execute(&mut state);
    assert!(state.flags.carry() == false);
    assert!(state.flags.zero() == false);
    assert_eq!(state.regs.acc(), 0x01);
}

#[test]
fn test_add_exhaustive_against_model() {
    // The executed accumulator and flags match the documented formulas for a
    // spread of operand pairs.
    let cases: [(u8, u8); 6] = [
        (0x00, 0x00),
        (0x0F, 0x01),
        (0x80, 0x80),
        (0xFF, 0xFF),
        (0x3C, 0x12),
        (0xA7, 0x59),
    ];
    for &(a, b) in cases.iter() {
        let mut state = CpuState::new();
        state.regs.set_acc(a);
        state.regs.set_d(b);
        Add(ArithSource::Reg(Reg8::D)).execute(&mut state);
        let wide = a as u16 + b as u16;
        let expect = (wide % 256) as u8;
        assert_eq!(state.regs.acc(), expect);
        assert_eq!(state.flags.zero(), expect == 0);
        assert_eq!(state.flags.carry(), wide > 255);
        assert_eq!(state.flags.half_carry(), (expect & 0x0F) < (b & 0x0F));
        assert!(!state.flags.subtract());
    }
}
