use vstd::prelude::*;

verus! {

/// The two-input arithmetic/flag unit. It adds, or — when its subtract
/// mode is set — adds the two's-complement negation of the right operand,
/// and retains a zero flag and a carry flag from the last computation.
///
/// The subtract mode is not self-resetting: a caller that sets it must
/// reset it after use, or all subsequent additions run as subtractions.
pub struct ArithmeticLogicUnit {
    pub subtract: bool,
    pub zero_flag: bool,
    pub carry_flag: bool,
}

/// The two's-complement negation of a byte: all bits inverted, plus one,
/// modulo the word size.
pub open spec fn twos_complement(value: u8) -> u8 {
    (((!value) + 1) % 256) as u8
}

/// The effective right operand of the unit: negated in subtract mode,
/// unchanged otherwise.
pub open spec fn alu_operand(subtract: bool, rhs: u8) -> u8 {
    if subtract {
        twos_complement(rhs)
    } else {
        rhs
    }
}

/// The unbounded sum the adder computes before truncation to a byte.
pub open spec fn alu_sum(subtract: bool, lhs: u8, rhs: u8) -> int {
    lhs + alu_operand(subtract, rhs)
}

/// The result byte of the unit: the sum, modulo the word size.
pub open spec fn alu_result(subtract: bool, lhs: u8, rhs: u8) -> u8 {
    (alu_sum(subtract, lhs, rhs) % 256) as u8
}

/// The carry flag of the unit: whether the addition overflowed the word.
pub open spec fn alu_carry(subtract: bool, lhs: u8, rhs: u8) -> bool {
    alu_sum(subtract, lhs, rhs) >= 256
}

impl ArithmeticLogicUnit {
    /// Put the unit in subtract mode.
    pub fn set_subtract(&mut self)
        ensures
            *final(self) == (ArithmeticLogicUnit { subtract: true, ..*old(self) }),
    {
        self.subtract = true;
    }

    /// Put the unit back in add mode.
    pub fn reset_subtract(&mut self)
        ensures
            *final(self) == (ArithmeticLogicUnit { subtract: false, ..*old(self) }),
    {
        self.subtract = false;
    }

    /// Compute the result byte for the two operands under the current
    /// mode, updating the zero and carry flags as a side effect. The zero
    /// flag is set exactly when the result byte is zero; the carry flag is
    /// set exactly when the (possibly negated) addition overflowed.
    pub fn get_result(&mut self, lhs: u8, rhs: u8) -> (result: u8)
        ensures
            result == alu_result(old(self).subtract, lhs, rhs),
            final(self).subtract == old(self).subtract,
            final(self).zero_flag == (result == 0),
            final(self).zero_flag == (alu_result(old(self).subtract, lhs, rhs) == 0),
            final(self).carry_flag == alu_carry(old(self).subtract, lhs, rhs),
    {
        let effective_rhs: u8 = if self.subtract {
            let negated: u8 = (!rhs).wrapping_add(1);
            proof {
                assert(negated == twos_complement(rhs));
            }
            negated
        } else {
            rhs
        };

        let sum: u16 = lhs as u16 + effective_rhs as u16;
        let result: u8 = (sum % 256) as u8;

        self.carry_flag = sum > 255;
        self.zero_flag = result == 0;

        result
    }

    /// A fresh unit is in add mode with both flags clear.
    pub fn new() -> (unit: ArithmeticLogicUnit)
        ensures
            unit == (ArithmeticLogicUnit { subtract: false, zero_flag: false, carry_flag: false }),
    {
        ArithmeticLogicUnit { subtract: false, zero_flag: false, carry_flag: false }
    }
}

} // verus!
