use sap1_emu::microcode::MicroOp;
use sap1_emu::processing_unit::ProcessingUnit;

#[test]
fn test_fetch_cycle() {
    let mut pu = ProcessingUnit::new();
    pu.memory[0] = 0x13;
    pu.fetch();
    assert_eq!(pu.instruction_register.read(), 0x13);
}

#[test]
fn test_ldi_instruction() {
    let mut pu = ProcessingUnit::new();
    pu.memory[0] = 0x54;
    pu.memory[1] = 0xF0;
    pu.run();
    assert_eq!(pu.a_reg.read(), 0x4);
}

#[test]
fn test_fetch_advances_program_counter() {
    let mut pu = ProcessingUnit::new();
    pu.memory[0] = 0x13;
    pu.fetch();
    assert_eq!(pu.program_counter.read(), 1);
    assert_eq!(pu.databus.read(), 0);
}

#[test]
fn test_fetch_wraps_program_counter() {
    let mut pu = ProcessingUnit::new();
    pu.memory[15] = 0x42;
    pu.program_counter.set(15);
    pu.fetch();
    assert_eq!(pu.instruction_register.read(), 0x42);
    assert_eq!(pu.program_counter.read(), 0);
}

#[test]
fn test_run_halts_with_flag_set() {
    let mut pu = ProcessingUnit::new();
    pu.memory[0] = 0x54;
    pu.memory[1] = 0xF0;
    pu.run();
    assert!(pu.halted);
}

#[test]
fn test_lda_instruction() {
    let mut pu = ProcessingUnit::new();
    let mut memory = [0u8; 16];
    memory[0] = 0x15; // LDA from address 5
    memory[1] = 0xF0; // HLT
    memory[5] = 42;
    pu.load_memory(memory);
    pu.run();
    assert_eq!(pu.a_reg.read(), 42);
}

#[test]
fn test_add_instruction() {
    let mut pu = ProcessingUnit::new();
    pu.memory[0] = 0x55; // LDI 5
    pu.memory[1] = 0x24; // ADD from address 4
    pu.memory[2] = 0xF0; // HLT
    pu.memory[4] = 3;
    pu.run();
    assert_eq!(pu.a_reg.read(), 8);
    assert!(!pu.flag_store.carry);
    assert!(!pu.flag_store.zero);
}

#[test]
fn test_sub_instruction() {
    let mut pu = ProcessingUnit::new();
    pu.memory[0] = 0x55; // LDI 5
    pu.memory[1] = 0x34; // SUB from address 4
    pu.memory[2] = 0xF0; // HLT
    pu.memory[4] = 3;
    pu.run();
    assert_eq!(pu.a_reg.read(), 2);
    // 5 + (!3 + 1) = 5 + 253 = 258 = 2 mod 256, with unsigned overflow
    assert!(pu.flag_store.carry);
    assert!(!pu.flag_store.zero);
}

#[test]
fn test_sta_instruction() {
    let mut pu = ProcessingUnit::new();
    pu.memory[0] = 0x57; // LDI 7
    pu.memory[1] = 0x49; // STA to address 9
    pu.memory[2] = 0xF0; // HLT
    pu.run();
    assert_eq!(pu.memory[9], 7);
    assert_eq!(pu.a_reg.read(), 7);
}

#[test]
fn test_jmp_instruction() {
    let mut pu = ProcessingUnit::new();
    pu.memory[0] = 0x63; // JMP to address 3
    pu.memory[1] = 0x51; // LDI 1, skipped
    pu.memory[2] = 0xF0;
    pu.memory[3] = 0xF0; // HLT
    pu.run();
    assert_eq!(pu.a_reg.read(), 0);
    assert!(pu.halted);
}

#[test]
fn test_jz_taken_after_zero_result() {
    let mut pu = ProcessingUnit::new();
    pu.memory[0] = 0x55; // LDI 5
    pu.memory[1] = 0x37; // SUB from address 7: 5 - 5 = 0, zero flag stored
    pu.memory[2] = 0x85; // JZ to address 5
    pu.memory[3] = 0x51; // LDI 1, skipped when the jump is taken
    pu.memory[4] = 0xF0;
    pu.memory[5] = 0xF0; // HLT
    pu.memory[7] = 5;
    pu.run();
    assert_eq!(pu.a_reg.read(), 0);
    assert!(pu.flag_store.zero);
}

#[test]
fn test_jc_not_taken_on_fresh_machine() {
    let mut pu = ProcessingUnit::new();
    pu.memory[0] = 0x73; // JC to address 3; the stored carry flag is clear
    pu.memory[1] = 0x51; // LDI 1, executed because the jump is not taken
    pu.memory[2] = 0xF0; // HLT
    pu.memory[3] = 0xF0;
    pu.run();
    assert_eq!(pu.a_reg.read(), 1);
}

#[test]
fn test_jc_taken_after_carry() {
    let mut pu = ProcessingUnit::new();
    pu.memory[0] = 0x55; // LDI 5
    pu.memory[1] = 0x37; // SUB from address 7: 5 - 3 overflows the negated add
    pu.memory[2] = 0x75; // JC to address 5
    pu.memory[3] = 0x51; // LDI 1, skipped when the jump is taken
    pu.memory[4] = 0xF0;
    pu.memory[5] = 0xF0; // HLT
    pu.memory[7] = 3;
    pu.run();
    assert_eq!(pu.a_reg.read(), 2);
    assert!(pu.flag_store.carry);
}

#[test]
fn test_out_instruction_latches_bus() {
    let mut pu = ProcessingUnit::new();
    pu.memory[0] = 0xE0; // OUT: latch the bus value
    pu.memory[1] = 0xF0; // HLT
    pu.run();
    // The fetch cycle consumed the bus, so the latch captures zero.
    assert_eq!(pu.output_register.read(), 0);
}

#[test]
fn test_output_latch_micro_op() {
    let mut pu = ProcessingUnit::new();
    pu.apply_micro_op(MicroOp::ProgramCounterOut);
    pu.databus.write(42);
    pu.apply_micro_op(MicroOp::OutputLatch);
    assert_eq!(pu.output_register.read(), 42);
    assert_eq!(pu.databus.read(), 42);
}

#[test]
fn test_reserved_opcodes_act_as_nop() {
    let mut pu = ProcessingUnit::new();
    pu.memory[0] = 0x90; // reserved: no assigned instruction
    pu.memory[1] = 0xA5; // reserved
    pu.memory[2] = 0xF0; // HLT
    pu.run();
    assert_eq!(pu.a_reg.read(), 0);
    assert!(pu.halted);
}

#[test]
fn test_run_for_spends_budget_without_halt() {
    let mut pu = ProcessingUnit::new();
    // All zero memory: an endless stream of NOPs.
    let cycles = pu.run_for(5);
    assert_eq!(cycles, 5);
    assert!(!pu.halted);
}

#[test]
fn test_run_for_stops_at_halt() {
    let mut pu = ProcessingUnit::new();
    pu.memory[0] = 0x54;
    pu.memory[1] = 0xF0;
    let cycles = pu.run_for(100);
    assert_eq!(cycles, 2);
    assert!(pu.halted);
    assert_eq!(pu.a_reg.read(), 4);
}

#[test]
fn test_jmp_self_loop_spends_budget() {
    let mut pu = ProcessingUnit::new();
    pu.memory[0] = 0x60; // JMP to address 0: a tight loop with no halt
    let cycles = pu.run_for(10);
    assert_eq!(cycles, 10);
    assert!(!pu.halted);
}

#[test]
fn test_sta_then_lda_round_trip() {
    let mut pu = ProcessingUnit::new();
    pu.memory[0] = 0x59; // LDI 9
    pu.memory[1] = 0x4C; // STA to address 12
    pu.memory[2] = 0x50; // LDI 0
    pu.memory[3] = 0x1C; // LDA from address 12
    pu.memory[4] = 0xF0; // HLT
    pu.run();
    assert_eq!(pu.a_reg.read(), 9);
    assert_eq!(pu.memory[12], 9);
}

#[test]
fn test_load_memory_replaces_wholesale() {
    let mut pu = ProcessingUnit::new();
    pu.memory[0] = 0x11;
    let image = [0xF0u8, 0, 0, 0, 0, 0, 0, 0, 0, 0, 0, 0, 0, 0, 0, 7];
    pu.load_memory(image);
    assert_eq!(pu.memory[0], 0xF0);
    assert_eq!(pu.memory[15], 7);
}
