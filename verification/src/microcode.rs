use vstd::prelude::*;

verus! {

/// Opcode of the no-operation instruction.
pub const OPCODE_NOP: u8 = 0x0;

/// Opcode of "load register A from the memory cell named by the operand".
pub const OPCODE_LDA: u8 = 0x1;

/// Opcode of "add the named memory cell to register A".
pub const OPCODE_ADD: u8 = 0x2;

/// Opcode of "subtract the named memory cell from register A".
pub const OPCODE_SUB: u8 = 0x3;

/// Opcode of "store register A into the named memory cell".
pub const OPCODE_STA: u8 = 0x4;

/// Opcode of "load the operand nibble into register A as an immediate".
pub const OPCODE_LDI: u8 = 0x5;

/// Opcode of "jump to the address named by the operand".
pub const OPCODE_JMP: u8 = 0x6;

/// Opcode of "jump to the operand address if the stored carry flag is set".
pub const OPCODE_JC: u8 = 0x7;

/// Opcode of "jump to the operand address if the stored zero flag is set".
pub const OPCODE_JZ: u8 = 0x8;

/// Opcode of "latch the bus value into the output latch".
pub const OPCODE_OUT: u8 = 0xE;

/// Opcode of "halt the clock".
pub const OPCODE_HLT: u8 = 0xF;

/// One micro-operation: an atomic transition of the machine state, moving
/// a byte over the shared bus, through the memory, or into a flag.
#[derive(Clone, Copy, Debug, PartialEq, Eq, Structural)]
pub enum MicroOp {
    /// Stop the clock: set the halted flag; the run loop then ends.
    HaltClock,
    /// Latch the bus value into the memory address register (destructive
    /// bus read).
    MemoryAddressRegisterIn,
    /// Drive the memory cell addressed by the low nibble of the memory
    /// address register onto the bus.
    MemoryOut,
    /// Store the bus value (peeked, not consumed) into the memory cell
    /// addressed by the low nibble of the memory address register.
    MemoryIn,
    /// Drive the low nibble of the instruction register — the operand of
    /// the current instruction — onto the bus.
    InstructionDataOut,
    /// Latch the bus value into the instruction register (destructive bus
    /// read).
    InstructionRegisterIn,
    /// Drive register A onto the bus.
    ARegOut,
    /// Latch the bus value into register A (destructive bus read).
    ARegIn,
    /// Drive the arithmetic unit's result for (A, B) in its current mode
    /// onto the bus, updating the unit's flags.
    AluOut,
    /// Drive the arithmetic unit's result for (A, B) in subtract mode onto
    /// the bus, updating the unit's flags and restoring add mode.
    AluSubtract,
    /// Latch the bus value (peeked, not consumed) into register B.
    BRegIn,
    /// Latch the bus value (peeked, not consumed) into the output latch.
    OutputLatch,
    /// Advance the program counter by one, wrapping at the memory size.
    IncrementProgramCounter,
    /// Drive the program counter onto the bus.
    ProgramCounterOut,
    /// Latch the low nibble of the bus value into the program counter.
    Jump,
    /// Jump as `Jump` does, but only if the stored carry flag is set.
    JumpIfCarry,
    /// Jump as `Jump` does, but only if the stored zero flag is set.
    JumpIfZero,
    /// Persist the arithmetic unit's zero and carry flags in the flag
    /// store, for later consumption by the conditional jumps.
    StoreFlags,
}

/// The microcode table: the ordered list of control words for each of the
/// sixteen opcodes. Each control word is an ordered list of
/// micro-operations that fire onto the bus within one sub-cycle; within a
/// word the operations are applied in the listed order. Opcodes without an
/// assigned instruction map to the empty instruction and so degrade to
/// no-operations. The table is fixed: execution never changes it.
pub open spec fn spec_instruction(opcode: u8) -> Seq<Seq<MicroOp>> {
    if opcode == OPCODE_LDA {
        seq![
            seq![MicroOp::InstructionDataOut, MicroOp::MemoryAddressRegisterIn],
            seq![MicroOp::MemoryOut, MicroOp::ARegIn],
        ]
    } else if opcode == OPCODE_ADD {
        seq![
            seq![MicroOp::InstructionDataOut, MicroOp::MemoryAddressRegisterIn],
            seq![MicroOp::MemoryOut, MicroOp::BRegIn],
            seq![MicroOp::AluOut, MicroOp::ARegIn, MicroOp::StoreFlags],
        ]
    } else if opcode == OPCODE_SUB {
        seq![
            seq![MicroOp::InstructionDataOut, MicroOp::MemoryAddressRegisterIn],
            seq![MicroOp::MemoryOut, MicroOp::BRegIn],
            seq![MicroOp::AluSubtract, MicroOp::ARegIn, MicroOp::StoreFlags],
        ]
    } else if opcode == OPCODE_STA {
        seq![
            seq![MicroOp::InstructionDataOut, MicroOp::MemoryAddressRegisterIn],
            seq![MicroOp::ARegOut, MicroOp::MemoryIn],
        ]
    } else if opcode == OPCODE_LDI {
        seq![seq![MicroOp::InstructionDataOut, MicroOp::ARegIn]]
    } else if opcode == OPCODE_JMP {
        seq![seq![MicroOp::InstructionDataOut, MicroOp::Jump]]
    } else if opcode == OPCODE_JC {
        seq![seq![MicroOp::InstructionDataOut, MicroOp::JumpIfCarry]]
    } else if opcode == OPCODE_JZ {
        seq![seq![MicroOp::InstructionDataOut, MicroOp::JumpIfZero]]
    } else if opcode == OPCODE_OUT {
        seq![seq![MicroOp::OutputLatch]]
    } else if opcode == OPCODE_HLT {
        seq![seq![MicroOp::HaltClock]]
    } else {
        seq![]
    }
}

/// The two control words of the fetch cycle: program counter to memory
/// address register over the bus, then the fetched cell to the instruction
/// register over the bus, and the program counter advanced.
pub open spec fn fetch_steps() -> Seq<Seq<MicroOp>> {
    seq![
        seq![MicroOp::ProgramCounterOut, MicroOp::MemoryAddressRegisterIn],
        seq![
            MicroOp::MemoryOut,
            MicroOp::InstructionRegisterIn,
            MicroOp::IncrementProgramCounter,
        ],
    ]
}

/// Whether a micro-operation drives a value onto the bus.
pub open spec fn writes_bus(op: MicroOp) -> bool {
    match op {
        MicroOp::MemoryOut => true,
        MicroOp::InstructionDataOut => true,
        MicroOp::ARegOut => true,
        MicroOp::AluOut => true,
        MicroOp::AluSubtract => true,
        MicroOp::ProgramCounterOut => true,
        _ => false,
    }
}

/// Whether a control word respects the single-driver bus protocol: only
/// its first micro-operation may drive the bus, so the word never
/// schedules two writers onto the shared value.
pub open spec fn single_bus_driver(word: Seq<MicroOp>) -> bool {
    forall|j: int| 1 <= j < word.len() ==> !writes_bus(#[trigger] word[j])
}

/// Law: every control word of every instruction in the microcode table,
/// and of the fetch cycle, has at most one bus driver, and that driver
/// stands first — the shared bus is never driven twice within a sub-cycle.
pub proof fn lemma_single_bus_driver(opcode: u8)
    ensures
        forall|i: int|
            0 <= i < spec_instruction(opcode).len() ==> single_bus_driver(
                #[trigger] spec_instruction(opcode)[i],
            ),
        forall|i: int|
            0 <= i < fetch_steps().len() ==> single_bus_driver(#[trigger] fetch_steps()[i]),
{
    let table = spec_instruction(opcode);
    assert forall|i: int| 0 <= i < table.len() implies single_bus_driver(#[trigger] table[i]) by {
        let word = table[i];
        assert forall|j: int| 1 <= j < word.len() implies !writes_bus(#[trigger] word[j]) by {
            assert(word[j] == word.index(j));
        }
    }
    assert forall|i: int| 0 <= i < fetch_steps().len() implies single_bus_driver(
        #[trigger] fetch_steps()[i],
    ) by {
        let word = fetch_steps()[i];
        assert forall|j: int| 1 <= j < word.len() implies !writes_bus(#[trigger] word[j]) by {
            assert(word[j] == word.index(j));
        }
    }
}

} // verus!
