//! Tests for the fetch/decode/execute step loop.

use gb_cpu::CpuState;
use gb_cpu::instructions::InstructionError;

#[test]
fn test_step_register_add() {
    let mut state = CpuState::new();
    // ADD A, B at address 0.
    state.mem = vec![0x80];
    state.regs.set_acc(0x21);
    state.regs.set_b(0x13);
    assert_eq!(state.step(), Ok(()));
    assert_eq!(state.regs.acc(), 0x34);
    assert_eq!(state.regs.pc(), 0x0001);
}

#[test]
fn test_step_immediate_add() {
    let mut state = CpuState::new();
    // ADD A, 0x05 at address 0, then ADD A, B.
    state.mem = vec![0xC6, 0x05, 0x80];
    assert_eq!(state.step(), Ok(()));
    assert_eq!(state.regs.acc(), 0x05);
    assert_eq!(state.regs.pc(), 0x0002);
    state.regs.set_b(0x02);
    assert_eq!(state.step(), Ok(()));
    assert_eq!(state.regs.acc(), 0x07);
    assert_eq!(state.regs.pc(), 0x0003);
}

#[test]
fn test_step_truncated_stream() {
    let mut state = CpuState::new();
    // The immediate-mode opcode sits at the end of the image, its trailing
    // byte missing: the step reports the failure and leaves the state alone.
    state.mem = vec![0xC6];
    state.regs.set_acc(0x42);
    assert_eq!(state.step(), Err(InstructionError::Invalid));
    assert_eq!(state.regs.acc(), 0x42);
    assert_eq!(state.regs.pc(), 0x0000);
}

#[test]
fn test_step_past_end_of_image() {
    let mut state = CpuState::new();
    state.mem = vec![0x80];
    state.regs.set_pc(0x0005);
    assert_eq!(state.step(), Err(InstructionError::Invalid));
    assert_eq!(state.regs.pc(), 0x0005);
}

#[test]
fn test_step_unimplemented_opcode() {
    let mut state = CpuState::new();
    state.mem = vec![0x00, 0x00];
    assert_eq!(state.step(), Err(InstructionError::Unimplemented));
    assert_eq!(state.regs.pc(), 0x0000);
}

#[test]
fn test_new_state_is_zeroed() {
    let mut state = CpuState::new();
    assert_eq!(state.regs.acc(), 0);
    assert_eq!(state.regs.bc(), 0);
    assert_eq!(state.regs.de(), 0);
    assert_eq!(state.regs.hl(), 0);
    assert_eq!(state.regs.sp(), 0);
    assert_eq!(state.regs.pc(), 0);
    assert_eq!(state.flags.value(), 0);
}
