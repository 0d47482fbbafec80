//! The arithmetic and logic operations of the processor.

use crate::alu;
use crate::alu::{Outcome, WideOutcome};
use crate::cpu::Cpu;
use crate::flags::Flags;
use crate::instr::{AluOp, Slot};
use crate::state::alu_outcome;
use vstd::prelude::*;

verus! {

/// The low nibble of a byte.
pub fn low_nibble(value: u8) -> (nibble: u8)
    ensures
        nibble == value % 16,
{
    assert(value & 0x0F == value % 16) by (bit_vector);
    value & 0x0F
}

/// The low twelve bits of a word.
pub fn low_twelve(value: u16) -> (bits: u16)
    ensures
        bits == value % 0x1000,
{
    assert(value & 0x0FFF == value % 0x1000) by (bit_vector);
    value & 0x0FFF
}

/// The sign extension of an offset byte to a word.
pub fn sign_extend(offset: u8) -> (value: u16)
    ensures
        value == alu::wrap16(alu::signed(offset)),
{
    if offset < 0x80 {
        offset as u16
    } else {
        0xFF00 + (offset as u16)
    }
}

/// `value + amount` on 16 bits, wrapping round.
pub fn add_wrapping16(value: u16, amount: u16) -> (sum: u16)
    ensures
        sum == alu::wrap16(value + amount),
{
    value.wrapping_add(amount)
}

/// `value - amount` on 16 bits, wrapping round.
pub fn sub_wrapping16(value: u16, amount: u16) -> (difference: u16)
    ensures
        difference == alu::wrap16(value - amount),
{
    value.wrapping_sub(amount)
}

/// The address at a signed offset from `base`, wrapping round.
pub fn offset_address(base: u16, offset: u8) -> (addr: u16)
    ensures
        addr == alu::wrap16(base + alu::signed(offset)),
{
    base.wrapping_add(sign_extend(offset))
}

/// `value + amount`, wrapping round.
pub fn add_wrapping(value: u8, amount: u8) -> (sum: u8)
    ensures
        sum == alu::wrap8(value + amount),
{
    value.wrapping_add(amount)
}

/// `value - amount`, wrapping round.
pub fn sub_wrapping(value: u8, amount: u8) -> (difference: u8)
    ensures
        difference == alu::wrap8(value - amount),
{
    value.wrapping_sub(amount)
}

/// The decimal adjustment of `a` under the given flags: the adjusted value
/// and the carry that results.
pub fn decimal_adjust(a: u8, flags: Flags) -> (out: (u8, bool))
    ensures
        out.0 == alu::daa(a, flags).value,
        out.1 == alu::daa(a, flags).flags.c,
{
    if flags.n {
        let a1 = if flags.c {
            sub_wrapping(a, 0x60)
        } else {
            a
        };
        let a2 = if flags.h {
            sub_wrapping(a1, 0x06)
        } else {
            a1
        };
        (a2, flags.c)
    } else {
        let high = flags.c || a > 0x99;
        let a1 = if high {
            add_wrapping(a, 0x60)
        } else {
            a
        };
        let a2 = if flags.h || low_nibble(a1) > 0x09 {
            add_wrapping(a1, 0x06)
        } else {
            a1
        };
        (a2, high)
    }
}

impl Cpu {
    /// Sets the flags as for `A - value`; A stays.
    pub fn cp(&mut self, value: u8)
        ensures
            final(self)@ == old(self)@.with_flags(alu::cp8(old(self)@.a, value)),
    {
        let a = self.get_reg_a();
        self.set_z_flag(a == value);
        self.set_n_flag(true);
        self.set_h_flag(low_nibble(a) < low_nibble(value));
        self.set_c_flag(a < value);
    }

    /// A becomes `A & value`.
    pub fn and_a(&mut self, value: u8)
        ensures
            final(self)@ == old(self)@.with_outcome(alu::and8(old(self)@.a, value)),
    {
        self.set_reg_a(self.get_reg_a() & value);
        self.reset_flags();
        self.set_z_flag(self.get_reg_a() == 0);
        self.set_h_flag(true);
    }

    /// A becomes `A | value`.
    pub fn or_a(&mut self, value: u8)
        ensures
            final(self)@ == old(self)@.with_outcome(alu::or8(old(self)@.a, value)),
    {
        self.set_reg_a(self.get_reg_a() | value);
        self.reset_flags();
        self.set_z_flag(self.get_reg_a() == 0);
    }

    /// A becomes `A ^ value`.
    pub fn xor_a(&mut self, value: u8)
        ensures
            final(self)@ == old(self)@.with_outcome(alu::xor8(old(self)@.a, value)),
    {
        self.set_reg_a(self.get_reg_a() ^ value);
        self.reset_flags();
        self.set_z_flag(self.get_reg_a() == 0);
    }

    /// The sum of two words, with the flags of a 16-bit addition.
    pub fn add_u16(&mut self, a: u16, b: u16) -> (res: u16)
        ensures
            res == alu::add16(a, b, old(self)@.flags).value,
            final(self)@ == old(self)@.with_flags(alu::add16(a, b, old(self)@.flags).flags),
    {
        let res = a.wrapping_add(b);
        self.set_n_flag(false);
        self.set_h_flag(low_twelve(a) + low_twelve(b) > 0x0FFF);
        self.set_c_flag(res < a);
        res
    }

    /// A word plus a signed offset byte, with the flags of that addition.
    pub fn add_i16(&mut self, a: u16, offset: u8) -> (res: u16)
        ensures
            res == alu::add_sp(a, offset).value,
            final(self)@ == old(self)@.with_flags(alu::add_sp(a, offset).flags),
    {
        let res = offset_address(a, offset);
        self.set_z_flag(false);
        self.set_n_flag(false);
        self.set_h_flag(low_nibble((a % 0x100) as u8) + low_nibble(offset) > 0x0F);
        self.set_c_flag(a % 0x100 + (offset as u16) > 0xFF);
        res
    }

    /// The sum of two bytes, with the flags of that addition.
    pub fn add_8(&mut self, a: u8, b: u8) -> (res: u8)
        ensures
            res == alu::add8(a, b).value,
            final(self)@ == old(self)@.with_flags(alu::add8(a, b).flags),
    {
        let res = a.wrapping_add(b);
        self.set_z_flag(res == 0);
        self.set_n_flag(false);
        self.set_h_flag(low_nibble(a) + low_nibble(b) > 0x0F);
        self.set_c_flag(res < a);
        res
    }

    /// A becomes `A + value + carry`.
    pub fn add_a_c(&mut self, value: u8)
        ensures
            final(self)@ == old(self)@.with_outcome(
                alu::adc8(old(self)@.a, value, old(self)@.flags.c),
            ),
    {
        let carry: u8 = if self.get_c_flag() {
            1
        } else {
            0
        };
        proof {
            alu::lemma_adc_in_two_steps(self@.a, value, self@.flags.c);
        }
        self.add_a(value);
        let c = self.get_c_flag();
        let h = self.get_h_flag();
        self.add_a(carry);
        self.set_c_flag(c || self.get_c_flag());
        self.set_h_flag(h || self.get_h_flag());
    }

    /// A becomes `A + value`.
    pub fn add_a(&mut self, value: u8)
        ensures
            final(self)@ == old(self)@.with_outcome(alu::add8(old(self)@.a, value)),
    {
        let res = self.add_8(self.get_reg_a(), value);
        self.set_reg_a(res);
    }

    /// A becomes `A - value`.
    pub fn sub_a(&mut self, value: u8)
        ensures
            final(self)@ == old(self)@.with_outcome(alu::sub8(old(self)@.a, value)),
    {
        let a = self.get_reg_a();
        let res = a.wrapping_sub(value);
        self.set_reg_a(res);
        self.set_z_flag(res == 0);
        self.set_n_flag(true);
        self.set_h_flag(low_nibble(a) < low_nibble(value));
        self.set_c_flag(a < value);
    }

    /// A becomes `A - value - carry`.
    pub fn sub_a_c(&mut self, value: u8)
        ensures
            final(self)@ == old(self)@.with_outcome(
                alu::sbc8(old(self)@.a, value, old(self)@.flags.c),
            ),
    {
        let carry: u8 = if self.get_c_flag() {
            1
        } else {
            0
        };
        proof {
            alu::lemma_sbc_in_two_steps(self@.a, value, self@.flags.c);
        }
        self.sub_a(value);
        let c = self.get_c_flag();
        let h = self.get_h_flag();
        self.sub_a(carry);
        self.set_c_flag(c || self.get_c_flag());
        self.set_h_flag(h || self.get_h_flag());
    }

    /// Applies an accumulator operation to A and `value`.
    pub fn alu(&mut self, op: AluOp, value: u8)
        ensures
            final(self)@ == old(self)@.with_outcome(
                alu_outcome(op, old(self)@.a, value, old(self)@.flags),
            ),
    {
        match op {
            AluOp::Add => self.add_a(value),
            AluOp::Adc => self.add_a_c(value),
            AluOp::Sub => self.sub_a(value),
            AluOp::Sbc => self.sub_a_c(value),
            AluOp::And => self.and_a(value),
            AluOp::Xor => self.xor_a(value),
            AluOp::Or => self.or_a(value),
            AluOp::Cp => self.cp(value),
        }
    }

    /// Adjusts A to packed decimal after an addition or subtraction.
    pub fn daa(&mut self)
        ensures
            final(self)@ == old(self)@.with_outcome(alu::daa(old(self)@.a, old(self)@.flags)),
    {
        let (a, c) = decimal_adjust(self.get_reg_a(), self.get_flags());
        self.set_reg_a(a);
        self.set_z_flag(a == 0);
        self.set_h_flag(false);
        self.set_c_flag(c);
    }

    /// Complements A.
    pub fn cpl(&mut self)
        ensures
            final(self)@ == old(self)@.with_outcome(alu::cpl(old(self)@.a, old(self)@.flags)),
    {
        self.set_reg_a(!self.get_reg_a());
        self.set_n_flag(true);
        self.set_h_flag(true);
    }

    /// Sets the carry flag.
    pub fn scf(&mut self)
        ensures
            final(self)@ == old(self)@.with_flags(alu::scf(old(self)@.flags)),
    {
        self.set_n_flag(false);
        self.set_h_flag(false);
        self.set_c_flag(true);
    }

    /// Inverts the carry flag.
    pub fn ccf(&mut self)
        ensures
            final(self)@ == old(self)@.with_flags(alu::ccf(old(self)@.flags)),
    {
        self.set_c_flag(!self.get_c_flag());
        self.set_n_flag(false);
        self.set_h_flag(false);
    }
}

} // verus!
