use vstd::prelude::*;

use crate::arithmetic_logic_unit::{
    alu_carry, alu_result, ArithmeticLogicUnit,
};
use crate::databus::Databus;
use crate::microcode::{
    spec_instruction, fetch_steps, MicroOp, OPCODE_ADD, OPCODE_HLT, OPCODE_JC, OPCODE_JMP,
    OPCODE_JZ, OPCODE_LDA, OPCODE_LDI, OPCODE_OUT, OPCODE_STA, OPCODE_SUB,
};
use crate::program_counter::{ProgramCounter, MEMORY_SIZE};
use crate::register::Register;

verus! {

/// The machine's memory: sixteen byte-wide cells, addressed by the low
/// four bits of any address-bearing byte.
pub type Memory = [u8; MEMORY_SIZE];

/// The persisted condition flags, latched from the arithmetic unit by the
/// `StoreFlags` micro-operation and consumed by the conditional jumps.
#[derive(Clone, Copy, Debug, PartialEq, Eq, Structural)]
pub struct FlagStore {
    pub zero: bool,
    pub carry: bool,
}

/// The mathematical model of the whole machine: every register, the bus,
/// the memory, the arithmetic unit, the persisted flags, the output latch
/// and the halted flag, as plain values.
#[verifier::ext_equal]
pub struct MachineState {
    pub bus: u8,
    pub memory: Seq<u8>,
    pub program_counter: u8,
    pub memory_address_register: u8,
    pub instruction_register: u8,
    pub a_reg: u8,
    pub b_reg: u8,
    pub alu: ArithmeticLogicUnit,
    pub flag_store: FlagStore,
    pub output_register: u8,
    pub halted: bool,
}

impl MachineState {
    /// Well-formedness of a machine state: the memory has its fixed size
    /// and the program counter is a valid memory index.
    pub open spec fn wf(&self) -> bool {
        &&& self.memory.len() == MEMORY_SIZE
        &&& (self.program_counter as usize) < MEMORY_SIZE
    }
}

/// The opcode of an instruction byte: its high nibble.
pub open spec fn spec_opcode(instruction: u8) -> u8 {
    (instruction & 0xF0) >> 4
}

/// The operand of an instruction byte: its low nibble, used as an address
/// or an immediate value depending on the opcode.
pub open spec fn spec_instruction_data(instruction: u8) -> u8 {
    instruction & 0x0F
}

/// The memory cell a byte addresses: its low nibble, as an index.
pub open spec fn spec_address(byte: u8) -> int {
    (byte & 0x0F) as int
}

/// What one micro-operation does to the machine state. This is the meaning
/// of each entry of the microcode table; the executable interpreter
/// `ProcessingUnit::apply_micro_op` is proved to match it.
pub open spec fn spec_apply_op(s: MachineState, op: MicroOp) -> MachineState {
    match op {
        MicroOp::HaltClock => MachineState { halted: true, ..s },
        MicroOp::MemoryAddressRegisterIn => MachineState {
            memory_address_register: s.bus,
            bus: 0,
            ..s
        },
        MicroOp::MemoryOut => MachineState {
            bus: s.memory[spec_address(s.memory_address_register)],
            ..s
        },
        MicroOp::MemoryIn => MachineState {
            memory: s.memory.update(spec_address(s.memory_address_register), s.bus),
            ..s
        },
        MicroOp::InstructionDataOut => MachineState {
            bus: spec_instruction_data(s.instruction_register),
            ..s
        },
        MicroOp::InstructionRegisterIn => MachineState {
            instruction_register: s.bus,
            bus: 0,
            ..s
        },
        MicroOp::ARegOut => MachineState { bus: s.a_reg, ..s },
        MicroOp::ARegIn => MachineState { a_reg: s.bus, bus: 0, ..s },
        MicroOp::AluOut => MachineState {
            bus: alu_result(s.alu.subtract, s.a_reg, s.b_reg),
            alu: ArithmeticLogicUnit {
                subtract: s.alu.subtract,
                zero_flag: alu_result(s.alu.subtract, s.a_reg, s.b_reg) == 0,
                carry_flag: alu_carry(s.alu.subtract, s.a_reg, s.b_reg),
            },
            ..s
        },
        MicroOp::AluSubtract => MachineState {
            bus: alu_result(true, s.a_reg, s.b_reg),
            alu: ArithmeticLogicUnit {
                subtract: false,
                zero_flag: alu_result(true, s.a_reg, s.b_reg) == 0,
                carry_flag: alu_carry(true, s.a_reg, s.b_reg),
            },
            ..s
        },
        MicroOp::BRegIn => MachineState { b_reg: s.bus, ..s },
        MicroOp::OutputLatch => MachineState { output_register: s.bus, ..s },
        MicroOp::IncrementProgramCounter => MachineState {
            program_counter: ((s.program_counter + 1) % (MEMORY_SIZE as int)) as u8,
            ..s
        },
        MicroOp::ProgramCounterOut => MachineState { bus: s.program_counter, ..s },
        MicroOp::Jump => MachineState { program_counter: s.bus & 0x0F, ..s },
        MicroOp::JumpIfCarry => if s.flag_store.carry {
            MachineState { program_counter: s.bus & 0x0F, ..s }
        } else {
            s
        },
        MicroOp::JumpIfZero => if s.flag_store.zero {
            MachineState { program_counter: s.bus & 0x0F, ..s }
        } else {
            s
        },
        MicroOp::StoreFlags => MachineState {
            flag_store: FlagStore { zero: s.alu.zero_flag, carry: s.alu.carry_flag },
            ..s
        },
    }
}

/// One control word applied to the machine state: its micro-operations, in
/// the listed order.
pub open spec fn spec_apply_ops(s: MachineState, ops: Seq<MicroOp>) -> MachineState
    decreases ops.len(),
{
    if ops.len() == 0 {
        s
    } else {
        spec_apply_ops(spec_apply_op(s, ops[0]), ops.drop_first())
    }
}

/// A whole instruction applied to the machine state: its control words, in
/// program order.
pub open spec fn spec_apply_steps(s: MachineState, steps: Seq<Seq<MicroOp>>) -> MachineState
    decreases steps.len(),
{
    if steps.len() == 0 {
        s
    } else {
        spec_apply_steps(spec_apply_ops(s, steps[0]), steps.drop_first())
    }
}

/// The instruction the microcode table assigns to an opcode, applied to
/// the machine state.
pub open spec fn spec_execute_instruction(s: MachineState, opcode: u8) -> MachineState {
    spec_apply_steps(s, spec_instruction(opcode))
}

/// One fetch cycle applied to the machine state: the two fetch control
/// words of the microcode.
pub open spec fn spec_fetch(s: MachineState) -> MachineState {
    spec_apply_steps(s, fetch_steps())
}

/// One full clock cycle of the engine: fetch, decode the high nibble of
/// the instruction register, and execute the decoded instruction.
pub open spec fn spec_cycle(s: MachineState) -> MachineState {
    let fetched = spec_fetch(s);
    spec_execute_instruction(fetched, spec_opcode(fetched.instruction_register))
}

/// The machine state after a number of full clock cycles.
pub open spec fn spec_run_cycles(s: MachineState, n: nat) -> MachineState
    decreases n,
{
    if n == 0 {
        s
    } else {
        spec_cycle(spec_run_cycles(s, (n - 1) as nat))
    }
}

/// The state every component starts in: everything zero, add mode, all
/// flags clear, not halted.
pub open spec fn spec_initial_state() -> MachineState {
    MachineState {
        bus: 0,
        memory: Seq::new(MEMORY_SIZE as nat, |i: int| 0u8),
        program_counter: 0,
        memory_address_register: 0,
        instruction_register: 0,
        a_reg: 0,
        b_reg: 0,
        alu: ArithmeticLogicUnit { subtract: false, zero_flag: false, carry_flag: false },
        flag_store: FlagStore { zero: false, carry: false },
        output_register: 0,
        halted: false,
    }
}

/// The whole SAP-1 style computer: the shared bus, the memory, the program
/// counter, the special and general purpose registers, the arithmetic
/// unit, the persisted flags, the output latch, and the halted flag.
pub struct ProcessingUnit {
    pub databus: Databus,
    pub memory: Memory,
    pub program_counter: ProgramCounter,
    pub memory_address_register: Register,
    pub instruction_register: Register,
    pub a_reg: Register,
    pub b_reg: Register,
    pub alu: ArithmeticLogicUnit,
    pub flag_store: FlagStore,
    pub output_register: Register,
    pub halted: bool,
}

impl View for ProcessingUnit {
    type V = MachineState;

    open spec fn view(&self) -> MachineState {
        MachineState {
            bus: self.databus@,
            memory: self.memory@,
            program_counter: self.program_counter@,
            memory_address_register: self.memory_address_register@,
            instruction_register: self.instruction_register@,
            a_reg: self.a_reg@,
            b_reg: self.b_reg@,
            alu: self.alu,
            flag_store: self.flag_store,
            output_register: self.output_register@,
            halted: self.halted,
        }
    }
}

impl ProcessingUnit {
    /// Well-formedness of the machine: its model is well-formed.
    pub open spec fn wf(&self) -> bool {
        self@.wf()
    }

    /// Stop the clock.
    fn halt_clock(&mut self)
        ensures
            final(self)@ == spec_apply_op(old(self)@, MicroOp::HaltClock),
    {
        self.halted = true;
    }

    /// Read a value from the databus (destructively) and latch it into the
    /// memory address register.
    fn memory_address_register_in(&mut self)
        ensures
            final(self)@ == spec_apply_op(old(self)@, MicroOp::MemoryAddressRegisterIn),
    {
        let value = self.databus.read_with_reset();
        self.memory_address_register.set(value);
    }

    /// Write the value of the memory cell addressed by the memory address
    /// register to the databus.
    fn memory_out(&mut self)
        ensures
            final(self)@ == spec_apply_op(old(self)@, MicroOp::MemoryOut),
    {
        let address = self.memory_address_register.read() & 0x0F;
        proof {
            lemma_low_nibble_in_range(old(self)@.memory_address_register);
        }
        self.databus.write(self.memory[address as usize]);
    }

    /// Store the databus value (peeked, not consumed) into the memory cell
    /// addressed by the memory address register.
    fn memory_in(&mut self)
        ensures
            final(self)@ == spec_apply_op(old(self)@, MicroOp::MemoryIn),
    {
        let address = self.memory_address_register.read() & 0x0F;
        proof {
            lemma_low_nibble_in_range(old(self)@.memory_address_register);
        }
        self.memory[address as usize] = self.databus.read();
    }

    /// Write the low nibble of the instruction register — the operand of
    /// the current instruction — to the databus.
    fn instruction_data_out(&mut self)
        ensures
            final(self)@ == spec_apply_op(old(self)@, MicroOp::InstructionDataOut),
    {
        let data = self.instruction_register.read() & 0x0F;
        self.databus.write(data);
    }

    /// Read a value from the databus (destructively) and latch it into the
    /// instruction register.
    fn instruction_register_in(&mut self)
        ensures
            final(self)@ == spec_apply_op(old(self)@, MicroOp::InstructionRegisterIn),
    {
        let value = self.databus.read_with_reset();
        self.instruction_register.set(value);
    }

    /// Write the value of register A to the databus.
    fn a_reg_out(&mut self)
        ensures
            final(self)@ == spec_apply_op(old(self)@, MicroOp::ARegOut),
    {
        self.databus.write(self.a_reg.read());
    }

    /// Read a value from the databus (destructively) and latch it into
    /// register A.
    fn a_reg_in(&mut self)
        ensures
            final(self)@ == spec_apply_op(old(self)@, MicroOp::ARegIn),
    {
        let data = self.databus.read_with_reset();
        self.a_reg.set(data);
    }

    /// Drive the arithmetic unit's result for (A, B) in its current mode
    /// onto the databus, updating its flags.
    fn alu_out(&mut self)
        ensures
            final(self)@ == spec_apply_op(old(self)@, MicroOp::AluOut),
    {
        let result = self.alu.get_result(self.a_reg.read(), self.b_reg.read());
        self.databus.write(result);
    }

    /// Drive the arithmetic unit's result for (A, B) in subtract mode onto
    /// the databus, updating its flags, and restore add mode afterwards.
    fn alu_subtract(&mut self)
        ensures
            final(self)@ == spec_apply_op(old(self)@, MicroOp::AluSubtract),
    {
        self.alu.set_subtract();
        let result = self.alu.get_result(self.a_reg.read(), self.b_reg.read());
        self.databus.write(result);
        self.alu.reset_subtract();
    }

    /// Latch the databus value (peeked, not consumed) into register B.
    fn b_reg_in(&mut self)
        ensures
            final(self)@ == spec_apply_op(old(self)@, MicroOp::BRegIn),
    {
        self.b_reg.set(self.databus.read());
    }

    /// Latch the databus value (peeked, not consumed) into the output
    /// latch, the sink that makes a byte observable outside the machine.
    fn output_latch(&mut self)
        ensures
            final(self)@ == spec_apply_op(old(self)@, MicroOp::OutputLatch),
    {
        self.output_register.set(self.databus.read());
    }

    /// Advance the program counter by one, wrapping at the memory size.
    fn increment_program_counter(&mut self)
        requires
            old(self).wf(),
        ensures
            final(self)@ == spec_apply_op(old(self)@, MicroOp::IncrementProgramCounter),
    {
        self.program_counter.advance();
    }

    /// Write the program counter value to the databus.
    fn program_counter_out(&mut self)
        ensures
            final(self)@ == spec_apply_op(old(self)@, MicroOp::ProgramCounterOut),
    {
        self.databus.write(self.program_counter.read());
    }

    /// Latch the low nibble of the databus value into the program counter:
    /// an absolute jump.
    fn jump(&mut self)
        ensures
            final(self)@ == spec_apply_op(old(self)@, MicroOp::Jump),
    {
        let target = self.databus.read() & 0x0F;
        proof {
            lemma_low_nibble_in_range(old(self)@.bus);
        }
        self.program_counter.set(target);
    }

    /// Jump as `jump` does, but only if the stored carry flag is set.
    fn jump_if_carry(&mut self)
        ensures
            final(self)@ == spec_apply_op(old(self)@, MicroOp::JumpIfCarry),
    {
        if self.flag_store.carry {
            let target = self.databus.read() & 0x0F;
            proof {
                lemma_low_nibble_in_range(old(self)@.bus);
            }
            self.program_counter.set(target);
        }
    }

    /// Jump as `jump` does, but only if the stored zero flag is set.
    fn jump_if_zero(&mut self)
        ensures
            final(self)@ == spec_apply_op(old(self)@, MicroOp::JumpIfZero),
    {
        if self.flag_store.zero {
            let target = self.databus.read() & 0x0F;
            proof {
                lemma_low_nibble_in_range(old(self)@.bus);
            }
            self.program_counter.set(target);
        }
    }

    /// Persist the arithmetic unit's flags in the flag store, for the
    /// conditional jumps to consume.
    fn store_flags(&mut self)
        ensures
            final(self)@ == spec_apply_op(old(self)@, MicroOp::StoreFlags),
    {
        self.flag_store = FlagStore { zero: self.alu.zero_flag, carry: self.alu.carry_flag };
    }

    /// The micro-operation interpreter: apply one micro-operation to the
    /// machine, exactly as the model `spec_apply_op` says.
    pub fn apply_micro_op(&mut self, op: MicroOp)
        requires
            old(self).wf(),
        ensures
            final(self)@ == spec_apply_op(old(self)@, op),
            final(self).wf(),
    {
        match op {
            MicroOp::HaltClock => self.halt_clock(),
            MicroOp::MemoryAddressRegisterIn => self.memory_address_register_in(),
            MicroOp::MemoryOut => self.memory_out(),
            MicroOp::MemoryIn => self.memory_in(),
            MicroOp::InstructionDataOut => self.instruction_data_out(),
            MicroOp::InstructionRegisterIn => self.instruction_register_in(),
            MicroOp::ARegOut => self.a_reg_out(),
            MicroOp::ARegIn => self.a_reg_in(),
            MicroOp::AluOut => self.alu_out(),
            MicroOp::AluSubtract => self.alu_subtract(),
            MicroOp::BRegIn => self.b_reg_in(),
            MicroOp::OutputLatch => self.output_latch(),
            MicroOp::IncrementProgramCounter => self.increment_program_counter(),
            MicroOp::ProgramCounterOut => self.program_counter_out(),
            MicroOp::Jump => self.jump(),
            MicroOp::JumpIfCarry => self.jump_if_carry(),
            MicroOp::JumpIfZero => self.jump_if_zero(),
            MicroOp::StoreFlags => self.store_flags(),
        }
        proof {
            lemma_apply_op_preserves_wf(old(self)@, op);
        }
    }
}

impl ProcessingUnit {
    /// The first fetch sub-cycle: program counter to the memory address
    /// register, over the bus.
    fn first_fetch_cycle(&mut self)
        ensures
            final(self)@ == spec_apply_ops(old(self)@, fetch_steps()[0]),
    {
        self.program_counter_out();
        self.memory_address_register_in();
        proof {
            reveal_with_fuel(spec_apply_ops, 3);
        }
    }

    /// The second fetch sub-cycle: the fetched memory cell to the
    /// instruction register, over the bus, and the program counter
    /// advanced.
    fn second_fetch_cycle(&mut self)
        requires
            old(self).wf(),
        ensures
            final(self)@ == spec_apply_ops(old(self)@, fetch_steps()[1]),
            final(self).wf(),
    {
        self.memory_out();
        self.instruction_register_in();
        self.increment_program_counter();
        proof {
            reveal_with_fuel(spec_apply_ops, 4);
            lemma_apply_op_preserves_wf(old(self)@, MicroOp::MemoryOut);
            lemma_apply_op_preserves_wf(
                spec_apply_op(old(self)@, MicroOp::MemoryOut),
                MicroOp::InstructionRegisterIn,
            );
        }
    }

    /// Perform one fetch cycle. Afterwards the instruction register holds
    /// the byte the program counter addressed, and the program counter has
    /// advanced by one, wrapping at the memory size.
    pub fn fetch(&mut self)
        requires
            old(self).wf(),
        ensures
            final(self)@ == spec_fetch(old(self)@),
            final(self).wf(),
            final(self)@.instruction_register == old(self)@.memory[old(self)@.program_counter as int],
            final(self)@.program_counter == (old(self)@.program_counter + 1) % (MEMORY_SIZE as int),
    {
        self.first_fetch_cycle();
        proof {
            assert(self.wf()) by {
                lemma_apply_op_preserves_wf(old(self)@, MicroOp::ProgramCounterOut);
                lemma_apply_op_preserves_wf(
                    spec_apply_op(old(self)@, MicroOp::ProgramCounterOut),
                    MicroOp::MemoryAddressRegisterIn,
                );
                reveal_with_fuel(spec_apply_ops, 3);
            }
        }
        self.second_fetch_cycle();
        proof {
            reveal_with_fuel(spec_apply_steps, 3);
            lemma_fetch_unfolded(old(self)@);
        }
    }

    /// Decode-and-execute: apply the microcode table's instruction for the
    /// given opcode, control word by control word, micro-operation by
    /// micro-operation. An opcode without an assigned instruction executes
    /// as a no-operation.
    #[verifier::rlimit(100)]
    pub fn execute_instruction(&mut self, opcode: u8)
        requires
            old(self).wf(),
        ensures
            final(self)@ == spec_execute_instruction(old(self)@, opcode),
            final(self).wf(),
    {
        proof {
            reveal_with_fuel(spec_apply_ops, 4);
            reveal_with_fuel(spec_apply_steps, 4);
        }
        if opcode == OPCODE_LDA {
            self.apply_micro_op(MicroOp::InstructionDataOut);
            self.apply_micro_op(MicroOp::MemoryAddressRegisterIn);
            self.apply_micro_op(MicroOp::MemoryOut);
            self.apply_micro_op(MicroOp::ARegIn);
        } else if opcode == OPCODE_ADD {
            self.apply_micro_op(MicroOp::InstructionDataOut);
            self.apply_micro_op(MicroOp::MemoryAddressRegisterIn);
            self.apply_micro_op(MicroOp::MemoryOut);
            self.apply_micro_op(MicroOp::BRegIn);
            self.apply_micro_op(MicroOp::AluOut);
            self.apply_micro_op(MicroOp::ARegIn);
            self.apply_micro_op(MicroOp::StoreFlags);
        } else if opcode == OPCODE_SUB {
            self.apply_micro_op(MicroOp::InstructionDataOut);
            self.apply_micro_op(MicroOp::MemoryAddressRegisterIn);
            self.apply_micro_op(MicroOp::MemoryOut);
            self.apply_micro_op(MicroOp::BRegIn);
            self.apply_micro_op(MicroOp::AluSubtract);
            self.apply_micro_op(MicroOp::ARegIn);
            self.apply_micro_op(MicroOp::StoreFlags);
        } else if opcode == OPCODE_STA {
            self.apply_micro_op(MicroOp::InstructionDataOut);
            self.apply_micro_op(MicroOp::MemoryAddressRegisterIn);
            self.apply_micro_op(MicroOp::ARegOut);
            self.apply_micro_op(MicroOp::MemoryIn);
        } else if opcode == OPCODE_LDI {
            self.apply_micro_op(MicroOp::InstructionDataOut);
            self.apply_micro_op(MicroOp::ARegIn);
        } else if opcode == OPCODE_JMP {
            self.apply_micro_op(MicroOp::InstructionDataOut);
            self.apply_micro_op(MicroOp::Jump);
        } else if opcode == OPCODE_JC {
            self.apply_micro_op(MicroOp::InstructionDataOut);
            self.apply_micro_op(MicroOp::JumpIfCarry);
        } else if opcode == OPCODE_JZ {
            self.apply_micro_op(MicroOp::InstructionDataOut);
            self.apply_micro_op(MicroOp::JumpIfZero);
        } else if opcode == OPCODE_OUT {
            self.apply_micro_op(MicroOp::OutputLatch);
        } else if opcode == OPCODE_HLT {
            self.apply_micro_op(MicroOp::HaltClock);
        }
    }

    /// Run the machine for at most the given number of full clock cycles:
    /// fetch, decode and execute instructions, cycle after cycle, until a
    /// halt micro-operation stops the clock or the cycle budget is spent.
    /// Returns the number of cycles executed. The state on return is
    /// exactly the one the cycle semantics reaches after that many cycles,
    /// none of which started from a halted state, and the machine only
    /// fails to be halted if the whole budget was spent.
    pub fn run_for(&mut self, max_cycles: u64) -> (cycles: u64)
        requires
            old(self).wf(),
        ensures
            final(self).wf(),
            cycles <= max_cycles,
            final(self)@ == spec_run_cycles(old(self)@, cycles as nat),
            forall|k: nat| k < cycles ==> !(#[trigger] spec_run_cycles(old(self)@, k)).halted,
            final(self)@.halted || cycles == max_cycles,
    {
        let ghost initial = old(self)@;
        let mut cycles: u64 = 0;
        while !self.halted && cycles < max_cycles
            invariant
                self.wf(),
                cycles <= max_cycles,
                self@ == spec_run_cycles(initial, cycles as nat),
                forall|k: nat| k < cycles ==> !(#[trigger] spec_run_cycles(initial, k)).halted,
                initial == old(self)@,
            decreases max_cycles - cycles,
        {
            let ghost before = self@;
            self.fetch();
            let opcode = (self.instruction_register.read() & 0xF0) >> 4;
            self.execute_instruction(opcode);
            cycles = cycles + 1;
            proof {
                assert(self@ == spec_cycle(before));
                assert(spec_run_cycles(initial, cycles as nat) == spec_cycle(
                    spec_run_cycles(initial, (cycles - 1) as nat),
                ));
            }
        }
        cycles
    }

    /// Run the machine until a halt micro-operation stops the clock, up to
    /// the largest expressible cycle budget. On return the state is the
    /// one the cycle semantics reaches after some number of cycles, none
    /// of which started from a halted state, and the machine is halted
    /// unless the program needed more cycles than that budget.
    pub fn run(&mut self)
        requires
            old(self).wf(),
        ensures
            final(self).wf(),
            exists|n: nat|
                n <= u64::MAX && final(self)@ == #[trigger] spec_run_cycles(old(self)@, n)
                    && (forall|k: nat| k < n ==> !(#[trigger] spec_run_cycles(old(self)@, k)).halted)
                    && (final(self)@.halted || n == u64::MAX),
    {
        let cycles = self.run_for(u64::MAX);
        proof {
            assert(cycles as nat <= u64::MAX && self@ == spec_run_cycles(
                old(self)@,
                cycles as nat,
            ));
        }
    }

    /// Replace the memory wholesale with the given program image. Meant to
    /// be called before the machine runs.
    pub fn load_memory(&mut self, memory: Memory)
        ensures
            final(self)@ == (MachineState { memory: memory@, ..old(self)@ }),
            old(self).wf() ==> final(self).wf(),
    {
        self.memory = memory;
    }

    /// A fresh machine: every register, the bus, the memory, the flags and
    /// the output latch all zero, the arithmetic unit in add mode, the
    /// clock running.
    pub fn new() -> (unit: ProcessingUnit)
        ensures
            unit@ == spec_initial_state(),
            unit.wf(),
    {
        let unit = ProcessingUnit {
            databus: Databus::new(),
            memory: [0u8; MEMORY_SIZE],
            program_counter: ProgramCounter::new(),
            memory_address_register: Register::new(),
            instruction_register: Register::new(),
            a_reg: Register::new(),
            b_reg: Register::new(),
            alu: ArithmeticLogicUnit::new(),
            flag_store: FlagStore { zero: false, carry: false },
            output_register: Register::new(),
            halted: false,
        };
        proof {
            assert(unit@.memory =~= spec_initial_state().memory);
            assert(unit@ =~= spec_initial_state());
        }
        unit
    }
}

/// Law: one fetch cycle, from any well-formed state, clears the bus,
/// latches the program counter into the memory address register, loads the
/// instruction register with the byte the program counter addressed, and
/// advances the program counter by one modulo the memory size — and
/// changes nothing else.
pub proof fn lemma_fetch_unfolded(s: MachineState)
    requires
        s.wf(),
    ensures
        spec_fetch(s) == (MachineState {
            bus: 0,
            memory_address_register: s.program_counter,
            instruction_register: s.memory[s.program_counter as int],
            program_counter: ((s.program_counter + 1) % (MEMORY_SIZE as int)) as u8,
            ..s
        }),
{
    reveal_with_fuel(spec_apply_ops, 4);
    reveal_with_fuel(spec_apply_steps, 3);
    let pc = s.program_counter;
    assert(pc & 0x0F == pc) by (bit_vector)
        requires
            pc < 16,
    ;
}

/// Masking a byte to its low nibble twice is the same as masking it once.
proof fn lemma_nibble_mask_idempotent(byte: u8)
    ensures
        (byte & 0x0F) & 0x0F == byte & 0x0F,
{
    assert((byte & 0x0F) & 0x0F == byte & 0x0F) by (bit_vector);
}

/// Law: an opcode without an assigned instruction — NOP and every reserved
/// opcode — executes as a no-operation: the machine state is unchanged.
pub proof fn lemma_unassigned_executes_as_nop(s: MachineState, opcode: u8)
    requires
        spec_instruction(opcode).len() == 0,
    ensures
        spec_execute_instruction(s, opcode) == s,
{
    reveal_with_fuel(spec_apply_steps, 2);
}

/// Law: LDI loads the operand nibble of the current instruction into
/// register A as an immediate, consuming the bus, and changes nothing
/// else.
pub proof fn lemma_ldi_executed(s: MachineState)
    ensures
        spec_execute_instruction(s, OPCODE_LDI) == (MachineState {
            bus: 0,
            a_reg: spec_instruction_data(s.instruction_register),
            ..s
        }),
{
    reveal_with_fuel(spec_apply_ops, 3);
    reveal_with_fuel(spec_apply_steps, 3);
}

/// Law: LDA loads register A from the memory cell the operand nibble
/// addresses, leaving that address in the memory address register and the
/// bus consumed.
pub proof fn lemma_lda_executed(s: MachineState)
    ensures
        spec_execute_instruction(s, OPCODE_LDA) == (MachineState {
            bus: 0,
            memory_address_register: spec_instruction_data(s.instruction_register),
            a_reg: s.memory[spec_instruction_data(s.instruction_register) as int],
            ..s
        }),
{
    reveal_with_fuel(spec_apply_ops, 4);
    reveal_with_fuel(spec_apply_steps, 4);
    lemma_nibble_mask_idempotent(s.instruction_register);
}

/// Law: ADD, with the arithmetic unit in its default add mode, loads
/// register B from the memory cell the operand nibble addresses, replaces
/// register A with the sum of A and B modulo the word size, and leaves the
/// zero and carry flags of that sum both in the unit and persisted in the
/// flag store.
pub proof fn lemma_add_executed(s: MachineState)
    requires
        !s.alu.subtract,
    ensures
        spec_execute_instruction(s, OPCODE_ADD) == ({
            let operand = s.memory[spec_instruction_data(s.instruction_register) as int];
            let result = alu_result(false, s.a_reg, operand);
            let carry = alu_carry(false, s.a_reg, operand);
            MachineState {
                bus: 0,
                memory_address_register: spec_instruction_data(s.instruction_register),
                b_reg: operand,
                a_reg: result,
                alu: ArithmeticLogicUnit {
                    subtract: false,
                    zero_flag: result == 0,
                    carry_flag: carry,
                },
                flag_store: FlagStore { zero: result == 0, carry: carry },
                ..s
            }
        }),
{
    reveal_with_fuel(spec_apply_ops, 4);
    reveal_with_fuel(spec_apply_steps, 4);
    lemma_nibble_mask_idempotent(s.instruction_register);
}

/// Law: SUB loads register B from the memory cell the operand nibble
/// addresses, replaces register A with A plus the two's-complement
/// negation of B modulo the word size, leaves the flags of that
/// computation in the unit and in the flag store, and restores the unit to
/// add mode — whatever mode it was in before.
pub proof fn lemma_sub_executed(s: MachineState)
    ensures
        spec_execute_instruction(s, OPCODE_SUB) == ({
            let operand = s.memory[spec_instruction_data(s.instruction_register) as int];
            let result = alu_result(true, s.a_reg, operand);
            let carry = alu_carry(true, s.a_reg, operand);
            MachineState {
                bus: 0,
                memory_address_register: spec_instruction_data(s.instruction_register),
                b_reg: operand,
                a_reg: result,
                alu: ArithmeticLogicUnit {
                    subtract: false,
                    zero_flag: result == 0,
                    carry_flag: carry,
                },
                flag_store: FlagStore { zero: result == 0, carry: carry },
                ..s
            }
        }),
{
    reveal_with_fuel(spec_apply_ops, 4);
    reveal_with_fuel(spec_apply_steps, 4);
    lemma_nibble_mask_idempotent(s.instruction_register);
}

/// Law: STA stores register A into the memory cell the operand nibble
/// addresses; the stored value remains on the bus, since the memory write
/// only peeks at it.
pub proof fn lemma_sta_executed(s: MachineState)
    ensures
        spec_execute_instruction(s, OPCODE_STA) == (MachineState {
            bus: s.a_reg,
            memory_address_register: spec_instruction_data(s.instruction_register),
            memory: s.memory.update(
                spec_instruction_data(s.instruction_register) as int,
                s.a_reg,
            ),
            ..s
        }),
{
    reveal_with_fuel(spec_apply_ops, 4);
    reveal_with_fuel(spec_apply_steps, 4);
    lemma_nibble_mask_idempotent(s.instruction_register);
}

/// Law: JMP sets the program counter to the operand nibble of the current
/// instruction, which also remains on the bus.
pub proof fn lemma_jmp_executed(s: MachineState)
    ensures
        spec_execute_instruction(s, OPCODE_JMP) == (MachineState {
            bus: spec_instruction_data(s.instruction_register),
            program_counter: spec_instruction_data(s.instruction_register),
            ..s
        }),
{
    reveal_with_fuel(spec_apply_ops, 3);
    reveal_with_fuel(spec_apply_steps, 3);
    lemma_nibble_mask_idempotent(s.instruction_register);
}

/// Law: JC jumps to the operand address exactly when the stored carry flag
/// is set, and JZ exactly when the stored zero flag is set; either way the
/// operand remains on the bus and nothing else changes.
pub proof fn lemma_conditional_jumps_executed(s: MachineState)
    ensures
        spec_execute_instruction(s, OPCODE_JC) == (MachineState {
            bus: spec_instruction_data(s.instruction_register),
            program_counter: if s.flag_store.carry {
                spec_instruction_data(s.instruction_register)
            } else {
                s.program_counter
            },
            ..s
        }),
        spec_execute_instruction(s, OPCODE_JZ) == (MachineState {
            bus: spec_instruction_data(s.instruction_register),
            program_counter: if s.flag_store.zero {
                spec_instruction_data(s.instruction_register)
            } else {
                s.program_counter
            },
            ..s
        }),
{
    reveal_with_fuel(spec_apply_ops, 3);
    reveal_with_fuel(spec_apply_steps, 3);
    lemma_nibble_mask_idempotent(s.instruction_register);
}

/// Law: OUT latches the current bus value into the output latch, the one
/// externally observable register, and changes nothing else.
pub proof fn lemma_out_executed(s: MachineState)
    ensures
        spec_execute_instruction(s, OPCODE_OUT) == (MachineState {
            output_register: s.bus,
            ..s
        }),
{
    reveal_with_fuel(spec_apply_ops, 2);
    reveal_with_fuel(spec_apply_steps, 3);
}

/// Law: a cycle that fetches a halt instruction halts the machine. If the
/// cell the program counter addresses holds an instruction byte whose
/// opcode is HLT, then after that cycle the machine is exactly the fetched
/// state with the halted flag set: the halt micro-operation mutates
/// nothing else.
pub proof fn lemma_hlt_halts_cycle(s: MachineState)
    requires
        s.wf(),
        spec_opcode(s.memory[s.program_counter as int]) == OPCODE_HLT,
    ensures
        spec_cycle(s) == (MachineState { halted: true, ..spec_fetch(s) }),
        spec_cycle(s).halted,
{
    lemma_fetch_unfolded(s);
    reveal_with_fuel(spec_apply_ops, 3);
    reveal_with_fuel(spec_apply_steps, 3);
}

/// Law: the run loop cannot run past a halt. If the cycle semantics
/// reaches a halted state at some cycle within the budget, then a run that
/// executed `executed` cycles and stopped as `run_for` promises — either
/// on a halted state or with the whole budget spent, never having passed a
/// halted state — stopped on a halted state.
pub proof fn lemma_eventual_halt(
    s: MachineState,
    witness: nat,
    executed: nat,
    max_cycles: nat,
)
    requires
        witness <= max_cycles,
        spec_run_cycles(s, witness).halted,
        executed <= max_cycles,
        spec_run_cycles(s, executed).halted || executed == max_cycles,
        forall|k: nat| k < executed ==> !(#[trigger] spec_run_cycles(s, k)).halted,
    ensures
        spec_run_cycles(s, executed).halted,
{
    if !spec_run_cycles(s, executed).halted {
        assert(witness < executed || witness == executed);
    }
}

/// The low nibble of any byte is a valid memory index.
pub proof fn lemma_low_nibble_in_range(byte: u8)
    ensures
        ((byte & 0x0F) as usize) < MEMORY_SIZE,
{
    assert(((byte & 0x0F) as usize) < 16) by (bit_vector);
}

/// Law: every micro-operation preserves well-formedness of the machine
/// state — in particular, the program counter never leaves the
/// addressable memory range.
pub proof fn lemma_apply_op_preserves_wf(s: MachineState, op: MicroOp)
    requires
        s.wf(),
    ensures
        spec_apply_op(s, op).wf(),
{
    match op {
        MicroOp::Jump | MicroOp::JumpIfCarry | MicroOp::JumpIfZero => {
            lemma_low_nibble_in_range(s.bus);
        },
        MicroOp::MemoryIn => {
            lemma_low_nibble_in_range(s.memory_address_register);
        },
        _ => {},
    }
}

} // verus!
