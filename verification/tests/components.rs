use sap1_emu::arithmetic_logic_unit::ArithmeticLogicUnit;
use sap1_emu::databus::Databus;
use sap1_emu::program_counter::{ProgramCounter, MEMORY_SIZE};
use sap1_emu::register::Register;

#[test]
fn test_register_set_and_read() {
    let mut register = Register::new();
    assert_eq!(register.read(), 0);
    register.set(0xAB);
    assert_eq!(register.read(), 0xAB);
    register.set(0x01);
    assert_eq!(register.read(), 0x01);
}

#[test]
fn test_databus_read_is_idempotent() {
    let mut bus = Databus::new();
    bus.write(9);
    assert_eq!(bus.read(), 9);
    assert_eq!(bus.read(), 9);
}

#[test]
fn test_databus_read_with_reset_zeroes() {
    let mut bus = Databus::new();
    bus.write(9);
    let first = bus.read_with_reset();
    let second = bus.read_with_reset();
    assert_eq!((first, second), (9, 0));
}

#[test]
fn test_program_counter_wraps_at_memory_size() {
    let mut pc = ProgramCounter::new();
    pc.set(15);
    pc.advance();
    assert_eq!(pc.read(), 0);
}

#[test]
fn test_program_counter_advances_by_one() {
    let mut pc = ProgramCounter::new();
    assert_eq!(MEMORY_SIZE, 16);
    pc.advance();
    pc.advance();
    assert_eq!(pc.read(), 2);
}

#[test]
fn test_alu_add() {
    let mut alu = ArithmeticLogicUnit::new();
    let result = alu.get_result(0x05, 0x03);
    assert_eq!(result, 0x08);
    assert!(!alu.carry_flag);
    assert!(!alu.zero_flag);
}

#[test]
fn test_alu_add_with_carry() {
    let mut alu = ArithmeticLogicUnit::new();
    let result = alu.get_result(200, 56);
    assert_eq!(result, 0);
    assert!(alu.carry_flag);
    assert!(alu.zero_flag);
}

#[test]
fn test_alu_subtract_two_complement() {
    let mut alu = ArithmeticLogicUnit::new();
    alu.set_subtract();
    let result = alu.get_result(0x05, 0x03);
    // 5 + (!3 + 1) = 5 + 253 = 258 = 2 mod 256, so the add overflowed
    assert_eq!(result, 0x02);
    assert!(alu.carry_flag);
    assert!(!alu.zero_flag);
}

#[test]
fn test_alu_subtract_borrow_clears_carry() {
    let mut alu = ArithmeticLogicUnit::new();
    alu.set_subtract();
    let result = alu.get_result(0x03, 0x05);
    // 3 + (!5 + 1) = 3 + 251 = 254, no unsigned overflow
    assert_eq!(result, 0xFE);
    assert!(!alu.carry_flag);
    assert!(!alu.zero_flag);
}

#[test]
fn test_alu_zero_flag_tracks_result() {
    let mut alu = ArithmeticLogicUnit::new();
    let zero = alu.get_result(0, 0);
    assert_eq!(zero, 0);
    assert!(alu.zero_flag);
    assert!(!alu.carry_flag);

    alu.set_subtract();
    let also_zero = alu.get_result(7, 7);
    assert_eq!(also_zero, 0);
    assert!(alu.zero_flag);

    alu.reset_subtract();
    let nonzero = alu.get_result(1, 1);
    assert_eq!(nonzero, 2);
    assert!(!alu.zero_flag);
}

#[test]
fn test_alu_mode_persists_until_reset() {
    let mut alu = ArithmeticLogicUnit::new();
    alu.set_subtract();
    assert_eq!(alu.get_result(10, 4), 6);
    // The mode is not self-resetting: a second call still subtracts.
    assert_eq!(alu.get_result(6, 4), 2);
    alu.reset_subtract();
    assert_eq!(alu.get_result(6, 4), 10);
}
