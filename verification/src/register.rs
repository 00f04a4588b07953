use vstd::prelude::*;

verus! {

/// A general-purpose 8-bit latch: one byte of content, set and read at will.
pub struct Register {
    pub content: u8,
}

impl View for Register {
    type V = u8;

    open spec fn view(&self) -> u8 {
        self.content
    }
}

impl Register {
    /// Replace the content of the register.
    pub fn set(&mut self, new_content: u8)
        ensures
            final(self)@ == new_content,
    {
        self.content = new_content;
    }

    /// Read the content of the register without changing it.
    pub fn read(&self) -> (content: u8)
        ensures
            content == self@,
    {
        self.content
    }

    /// A fresh register holds zero.
    pub fn new() -> (register: Register)
        ensures
            register@ == 0,
    {
        Register { content: 0 }
    }
}

} // verus!
