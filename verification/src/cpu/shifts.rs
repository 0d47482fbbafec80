//! Rotations, shifts and single-bit operations on the 8-bit operands.

use crate::alu;
use crate::bits::{get_bit, rotate_left, rotate_right, set_bit, shift_left, shift_right, swap_bits};
use crate::cpu::Cpu;
use crate::instr::{ShiftOp, Slot};
use crate::state::shift_outcome;
use vstd::prelude::*;

verus! {

/// Position of bit 7 among the bits of a byte counted from the most
/// significant one.
const FIRST: usize = 0;

/// Position of bit 0.
const LAST: usize = 7;

impl Cpu {
    /// Puts the result of a rotation or shift in its operand and sets the
    /// flags: zero by the result, carry as given, the others clear.
    fn finish_shift(&mut self, slot: Slot, result: u8, carry: bool)
        requires
            old(self)@.reg_write_fault(slot) is None,
        ensures
            final(self)@ == old(self)@.with_reg(slot, result).with_flags(
                alu::shift_flags(result, carry),
            ),
    {
        self.write_reg(slot, result);
        self.reset_flags();
        self.set_c_flag(carry);
        self.set_z_flag(result == 0);
    }

    /// Rotates the operand to the left; bit 7 goes to the carry flag.
    pub fn rlc(&mut self, slot: Slot)
        requires
            old(self)@.reg_update_fault(slot) is None,
        ensures
            final(self)@ == old(self)@.with_reg(slot, alu::rlc(old(self)@.reg(slot)).value).with_flags(
                alu::rlc(old(self)@.reg(slot)).flags,
            ),
    {
        let value = self.read_reg(slot);
        let carry = get_bit(value, FIRST);
        self.finish_shift(slot, rotate_left(value), carry);
    }

    /// Rotates the operand to the right; bit 0 goes to the carry flag.
    pub fn rrc(&mut self, slot: Slot)
        requires
            old(self)@.reg_update_fault(slot) is None,
        ensures
            final(self)@ == old(self)@.with_reg(slot, alu::rrc(old(self)@.reg(slot)).value).with_flags(
                alu::rrc(old(self)@.reg(slot)).flags,
            ),
    {
        let value = self.read_reg(slot);
        let carry = get_bit(value, LAST);
        self.finish_shift(slot, rotate_right(value), carry);
    }

    /// Rotates the operand to the left through the carry flag.
    pub fn rl(&mut self, slot: Slot)
        requires
            old(self)@.reg_update_fault(slot) is None,
        ensures
            final(self)@ == old(self)@.with_reg(
                slot,
                alu::rl(old(self)@.reg(slot), old(self)@.flags.c).value,
            ).with_flags(alu::rl(old(self)@.reg(slot), old(self)@.flags.c).flags),
    {
        let carry = self.get_c_flag();
        let value = self.read_reg(slot);
        let new_carry = get_bit(value, FIRST);
        let result = set_bit(shift_left(value), LAST, carry);
        proof {
            alu::lemma_rl_by_parts(value, carry);
        }
        self.finish_shift(slot, result, new_carry);
    }

    /// Exchanges the two nibbles of the operand.
    pub fn swap(&mut self, slot: Slot)
        requires
            old(self)@.reg_update_fault(slot) is None,
        ensures
            final(self)@ == old(self)@.with_reg(slot, alu::swap(old(self)@.reg(slot)).value).with_flags(
                alu::swap(old(self)@.reg(slot)).flags,
            ),
    {
        let value = self.read_reg(slot);
        let result = swap_bits(swap_bits(swap_bits(swap_bits(value, 0, 4), 1, 5), 2, 6), 3, 7);
        proof {
            alu::lemma_swap_by_parts(value);
        }
        self.finish_shift(slot, result, false);
    }

    /// Rotates the operand to the right through the carry flag.
    pub fn rr(&mut self, slot: Slot)
        requires
            old(self)@.reg_update_fault(slot) is None,
        ensures
            final(self)@ == old(self)@.with_reg(
                slot,
                alu::rr(old(self)@.reg(slot), old(self)@.flags.c).value,
            ).with_flags(alu::rr(old(self)@.reg(slot), old(self)@.flags.c).flags),
    {
        let carry = self.get_c_flag();
        let value = self.read_reg(slot);
        let new_carry = get_bit(value, LAST);
        let result = set_bit(shift_right(value), FIRST, carry);
        proof {
            alu::lemma_rr_by_parts(value, carry);
        }
        self.finish_shift(slot, result, new_carry);
    }

    /// Shifts the operand to the left; bit 7 goes to the carry flag.
    pub fn sla(&mut self, slot: Slot)
        requires
            old(self)@.reg_update_fault(slot) is None,
        ensures
            final(self)@ == old(self)@.with_reg(slot, alu::sla(old(self)@.reg(slot)).value).with_flags(
                alu::sla(old(self)@.reg(slot)).flags,
            ),
    {
        let value = self.read_reg(slot);
        let new_carry = get_bit(value, FIRST);
        self.finish_shift(slot, shift_left(value), new_carry);
    }

    /// Shifts the operand to the right and keeps bit 7; bit 0 goes to the
    /// carry flag.
    pub fn sra(&mut self, slot: Slot)
        requires
            old(self)@.reg_update_fault(slot) is None,
        ensures
            final(self)@ == old(self)@.with_reg(slot, alu::sra(old(self)@.reg(slot)).value).with_flags(
                alu::sra(old(self)@.reg(slot)).flags,
            ),
    {
        let value = self.read_reg(slot);
        let bit7 = get_bit(value, FIRST);
        let new_carry = get_bit(value, LAST);
        let result = set_bit(shift_right(value), FIRST, bit7);
        proof {
            alu::lemma_sra_by_parts(value);
        }
        self.finish_shift(slot, result, new_carry);
    }

    /// Shifts the operand to the right; bit 0 goes to the carry flag.
    pub fn srl(&mut self, slot: Slot)
        requires
            old(self)@.reg_update_fault(slot) is None,
        ensures
            final(self)@ == old(self)@.with_reg(slot, alu::srl(old(self)@.reg(slot)).value).with_flags(
                alu::srl(old(self)@.reg(slot)).flags,
            ),
    {
        let value = self.read_reg(slot);
        let carry = get_bit(value, LAST);
        self.finish_shift(slot, shift_right(value), carry);
    }

    /// Applies a rotation or shift to the operand.
    pub fn shift(&mut self, op: ShiftOp, slot: Slot)
        requires
            old(self)@.reg_update_fault(slot) is None,
        ensures
            final(self)@ == old(self)@.with_reg(
                slot,
                shift_outcome(op, old(self)@.reg(slot), old(self)@.flags.c).value,
            ).with_flags(shift_outcome(op, old(self)@.reg(slot), old(self)@.flags.c).flags),
    {
        match op {
            ShiftOp::Rlc => self.rlc(slot),
            ShiftOp::Rrc => self.rrc(slot),
            ShiftOp::Rl => self.rl(slot),
            ShiftOp::Rr => self.rr(slot),
            ShiftOp::Sla => self.sla(slot),
            ShiftOp::Sra => self.sra(slot),
            ShiftOp::Swap => self.swap(slot),
            ShiftOp::Srl => self.srl(slot),
        }
    }

    /// Tests bit `bit` of the operand: the zero flag is set where the bit is
    /// clear.
    pub fn bit(&mut self, bit: u8, slot: Slot)
        requires
            bit < 8,
            old(self)@.reg_read_fault(slot) is None,
        ensures
            final(self)@ == old(self)@.with_flags(
                alu::bit_test(bit, old(self)@.reg(slot), old(self)@.flags),
            ),
    {
        let value = self.read_reg(slot);
        let z = !get_bit(value, (7 - bit) as usize);
        self.set_z_flag(z);
        self.set_n_flag(false);
        self.set_h_flag(true);
    }

    /// Sets bit `bit` of the operand.
    pub fn set(&mut self, bit: u8, slot: Slot)
        requires
            bit < 8,
            old(self)@.reg_update_fault(slot) is None,
        ensures
            final(self)@ == old(self)@.with_reg(slot, alu::bit_set(bit, old(self)@.reg(slot))),
    {
        let value = self.read_reg(slot);
        self.write_reg(slot, set_bit(value, (7 - bit) as usize, true));
    }

    /// Clears bit `bit` of the operand.
    pub fn res(&mut self, bit: u8, slot: Slot)
        requires
            bit < 8,
            old(self)@.reg_update_fault(slot) is None,
        ensures
            final(self)@ == old(self)@.with_reg(slot, alu::bit_reset(bit, old(self)@.reg(slot))),
    {
        let value = self.read_reg(slot);
        self.write_reg(slot, set_bit(value, (7 - bit) as usize, false));
    }
}

} // verus!
