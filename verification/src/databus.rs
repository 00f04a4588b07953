use vstd::prelude::*;

verus! {

/// The shared data bus: a single byte-wide value, the sole channel through
/// which the registers, the memory and the arithmetic unit exchange data.
///
/// The bus has no arbitration. Correctness of the machine rests on the
/// microcode table never scheduling two writers within one control word;
/// see `microcode::lemma_single_bus_driver`.
pub struct Databus {
    pub current_state: u8,
}

impl View for Databus {
    type V = u8;

    open spec fn view(&self) -> u8 {
        self.current_state
    }
}

/// What one destructive read leaves behind: the pair of the value handed
/// out and the new bus state, which is always zero.
pub open spec fn spec_read_with_reset(state: u8) -> (u8, u8) {
    (state, 0)
}

impl Databus {
    /// Drive a new value onto the bus, overwriting the current one.
    pub fn write(&mut self, new_state: u8)
        ensures
            final(self)@ == new_state,
    {
        self.current_state = new_state;
    }

    /// Peek at the current state of the bus without changing it.
    pub fn read(&self) -> (state: u8)
        ensures
            state == self@,
    {
        self.current_state
    }

    /// Latch the current value off the bus and clear the bus to zero, so
    /// that no stale value lingers for subsequent unrelated reads.
    pub fn read_with_reset(&mut self) -> (state: u8)
        ensures
            (state, final(self)@) == spec_read_with_reset(old(self)@),
            state == old(self)@,
            final(self)@ == 0,
    {
        let old_state = self.current_state;
        self.current_state = 0;
        old_state
    }

    /// A fresh bus is quiescent at zero.
    pub fn new() -> (databus: Databus)
        ensures
            databus@ == 0,
    {
        Databus { current_state: 0 }
    }
}

/// Law: a destructive read hands out the stored value and leaves zero, so
/// two consecutive destructive reads yield the stored value and then zero.
pub proof fn lemma_read_with_reset_twice(state: u8)
    ensures
        spec_read_with_reset(state).0 == state,
        spec_read_with_reset(spec_read_with_reset(state).1).0 == 0,
{
}

} // verus!
