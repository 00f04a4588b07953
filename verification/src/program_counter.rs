use vstd::prelude::*;

verus! {

/// Number of cells in the machine's memory; addresses are 4 bits wide.
pub const MEMORY_SIZE: usize = 16;

/// The program counter: an 8-bit counter that always holds a valid memory
/// index, wrapping back to zero when it reaches `MEMORY_SIZE`.
pub struct ProgramCounter {
    pub value: u8,
}

impl View for ProgramCounter {
    type V = u8;

    open spec fn view(&self) -> u8 {
        self.value
    }
}

impl ProgramCounter {
    /// The invariant of the counter: its value is a valid memory index.
    pub open spec fn wf(&self) -> bool {
        (self@ as usize) < MEMORY_SIZE
    }

    /// Read the current value of the program counter.
    pub fn read(&self) -> (value: u8)
        ensures
            value == self@,
    {
        self.value
    }

    /// Set the counter to an absolute jump target, which must be a valid
    /// memory index.
    pub fn set(&mut self, new_value: u8)
        requires
            (new_value as usize) < MEMORY_SIZE,
        ensures
            final(self)@ == new_value,
            final(self).wf(),
    {
        self.value = new_value;
    }

    /// Advance the counter by one, wrapping to zero at `MEMORY_SIZE` so
    /// that it never leaves the addressable range.
    pub fn advance(&mut self)
        requires
            old(self).wf(),
        ensures
            final(self)@ == (old(self)@ + 1) % (MEMORY_SIZE as int),
            final(self).wf(),
    {
        self.value = self.value + 1;
        if self.value as usize >= MEMORY_SIZE {
            self.value = 0;
        }
    }

    /// A fresh program counter points at address zero.
    pub fn new() -> (program_counter: ProgramCounter)
        ensures
            program_counter@ == 0,
            program_counter.wf(),
    {
        ProgramCounter { value: 0 }
    }
}

} // verus!
