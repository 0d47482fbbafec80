//! Carrying out instructions: operand fetch, the stack, and the effect of
//! each instruction on the processor and the bus.

use crate::alu;
use crate::bus::{read_fault, write_fault};
use crate::cpu::arithmetic::{add_wrapping, add_wrapping16, low_nibble, sub_wrapping, sub_wrapping16};
use crate::cpu::{join, split, Cpu};
use crate::fault::Fault;
use crate::instr::{Cond, Pair, Pointer, Slot};
use crate::state::CpuState;
use vstd::prelude::*;

verus! {

impl Cpu {
    /// The fault of a read from `addr`, if any.
    pub fn read_check(&self, addr: u16) -> (fault: Option<Fault>)
        ensures
            fault == read_fault(self@.memory, addr),
    {
        if self.is_readable(addr) {
            None
        } else {
            Some(Fault::UnmappedRead(addr))
        }
    }

    /// The fault of a write to `addr`, if any.
    pub fn write_check(&self, addr: u16) -> (fault: Option<Fault>)
        ensures
            fault == write_fault(self@.memory, addr),
    {
        if addr < crate::bus::ROM_END {
            Some(Fault::RomWrite(addr))
        } else if !self.is_writable(addr) {
            Some(Fault::UnmappedWrite(addr))
        } else {
            None
        }
    }

    /// The address `offset` bytes past the program counter.
    pub fn ahead(&self, offset: u16) -> (addr: u16)
        ensures
            addr == self@.ahead(offset as int),
    {
        add_wrapping16(self.get_pc(), offset)
    }

    /// Moves the program counter on by `length`.
    pub fn skip(&mut self, length: u16)
        ensures
            final(self)@ == old(self)@.skip(length as int),
    {
        let target = self.ahead(length);
        self.set_pc(target);
    }

    /// The byte that follows the instruction code.
    pub fn read_u8(&self) -> (value: u8)
        requires
            self@.operand8_fault() is None,
        ensures
            value == self@.operand8(),
    {
        self.read(self.ahead(1))
    }

    /// The word that follows the instruction code, low byte first.
    pub fn read_u16(&self) -> (value: u16)
        requires
            self@.operand16_fault() is None,
        ensures
            value == self@.operand16(),
    {
        let lsb = self.read(self.ahead(1));
        let msb = self.read(self.ahead(2));
        join(msb, lsb)
    }

    /// Pushes a word: the stack pointer goes down by two, the high byte is
    /// written first.
    pub fn push(&mut self, value: u16)
        requires
            old(self)@.push_fault() is None,
        ensures
            final(self)@ == old(self)@.pushed(value),
    {
        let (msb, lsb) = split(value);
        let sp = sub_wrapping16(self.get_sp(), 1);
        self.set_sp(sp);
        self.write(sp, msb);
        let sp = sub_wrapping16(sp, 1);
        self.set_sp(sp);
        self.write(sp, lsb);
    }

    /// Pops a word: the low byte is read first, the stack pointer goes up by
    /// two.
    pub fn pop(&mut self) -> (value: u16)
        requires
            old(self)@.pop_fault() is None,
        ensures
            value == old(self)@.top(),
            final(self)@ == old(self)@.dropped(),
    {
        let sp = self.get_sp();
        let lsb = self.read(sp);
        let sp = add_wrapping16(sp, 1);
        self.set_sp(sp);
        let msb = self.read(sp);
        self.set_sp(add_wrapping16(sp, 1));
        join(msb, lsb)
    }

    /// The fault of pushing a word, if any.
    pub fn push_check(&self) -> (fault: Option<Fault>)
        ensures
            fault == self@.push_fault(),
    {
        let sp = self.get_sp();
        let first = self.write_check(sub_wrapping16(sp, 1));
        if first.is_some() {
            return first;
        }
        self.write_check(sub_wrapping16(sp, 2))
    }

    /// The fault of popping a word, if any.
    pub fn pop_check(&self) -> (fault: Option<Fault>)
        ensures
            fault == self@.pop_fault(),
    {
        let sp = self.get_sp();
        let first = self.read_check(sp);
        if first.is_some() {
            return first;
        }
        self.read_check(add_wrapping16(sp, 1))
    }

    /// The fault of reading the byte that follows the code, if any.
    pub fn read_u8_check(&self) -> (fault: Option<Fault>)
        ensures
            fault == self@.operand8_fault(),
    {
        self.read_check(self.ahead(1))
    }

    /// The fault of reading the word that follows the code, if any.
    pub fn read_u16_check(&self) -> (fault: Option<Fault>)
        ensures
            fault == self@.operand16_fault(),
    {
        let first = self.read_check(self.ahead(1));
        if first.is_some() {
            return first;
        }
        self.read_check(self.ahead(2))
    }

    /// The fault of reading an 8-bit operand, if any.
    pub fn read_reg_check(&self, slot: Slot) -> (fault: Option<Fault>)
        ensures
            fault == self@.reg_read_fault(slot),
    {
        match slot {
            Slot::AtHl => self.read_check(self.get_reg_hl()),
            _ => None,
        }
    }

    /// The fault of writing an 8-bit operand, if any.
    pub fn write_reg_check(&self, slot: Slot) -> (fault: Option<Fault>)
        ensures
            fault == self@.reg_write_fault(slot),
    {
        match slot {
            Slot::AtHl => self.write_check(self.get_reg_hl()),
            _ => None,
        }
    }

    /// The fault of reading an 8-bit operand and writing it back, if any.
    pub fn update_reg_check(&self, slot: Slot) -> (fault: Option<Fault>)
        ensures
            fault == self@.reg_update_fault(slot),
    {
        let first = self.read_reg_check(slot);
        if first.is_some() {
            return first;
        }
        self.write_reg_check(slot)
    }

    /// The value of a 16-bit register.
    pub fn get_pair(&self, pair: Pair) -> (value: u16)
        ensures
            value == self@.pair(pair),
    {
        match pair {
            Pair::BC => self.get_reg_bc(),
            Pair::DE => self.get_reg_de(),
            Pair::HL => self.get_reg_hl(),
            Pair::SP => self.get_sp(),
        }
    }

    /// Puts `value` in a 16-bit register.
    pub fn set_pair(&mut self, pair: Pair, value: u16)
        ensures
            final(self)@ == old(self)@.with_pair(pair, value),
    {
        match pair {
            Pair::BC => self.set_reg_bc(value),
            Pair::DE => self.set_reg_de(value),
            Pair::HL => self.set_reg_hl(value),
            Pair::SP => self.set_sp(value),
        }
    }

    /// Whether a condition holds of the flags.
    pub fn holds(&self, cond: Cond) -> (yes: bool)
        ensures
            yes == self@.holds(cond),
    {
        match cond {
            Cond::NZ => !self.get_z_flag(),
            Cond::Z => self.get_z_flag(),
            Cond::NC => !self.get_c_flag(),
            Cond::C => self.get_c_flag(),
        }
    }

    /// The address that a pointer gives.
    pub fn pointed(&self, pointer: Pointer) -> (addr: u16)
        ensures
            addr == self@.pointed(pointer),
    {
        match pointer {
            Pointer::BC => self.get_reg_bc(),
            Pointer::DE => self.get_reg_de(),
            Pointer::HlInc | Pointer::HlDec => self.get_reg_hl(),
        }
    }

    /// Moves HL on after a pointer was used, where the pointer says so.
    pub fn step_pointer(&mut self, pointer: Pointer)
        ensures
            final(self)@ == old(self)@.stepped(pointer),
    {
        match pointer {
            Pointer::BC | Pointer::DE => {},
            Pointer::HlInc => self.set_reg_hl(add_wrapping16(self.get_reg_hl(), 1)),
            Pointer::HlDec => self.set_reg_hl(sub_wrapping16(self.get_reg_hl(), 1)),
        }
    }

    /// Adds one to the operand.
    pub fn increment_register(&mut self, slot: Slot)
        requires
            old(self)@.reg_update_fault(slot) is None,
        ensures
            final(self)@ == old(self)@.with_reg(
                slot,
                alu::inc8(old(self)@.reg(slot), old(self)@.flags).value,
            ).with_flags(alu::inc8(old(self)@.reg(slot), old(self)@.flags).flags),
    {
        let val = self.read_reg(slot);
        let low = low_nibble(val);
        let new_val = add_wrapping(val, 1);
        self.write_reg(slot, new_val);
        self.set_z_flag(new_val == 0);
        self.set_n_flag(false);
        self.set_h_flag(low + 1 > 0x0F);
    }

    /// Takes one from the operand.
    pub fn decrement_register(&mut self, slot: Slot)
        requires
            old(self)@.reg_update_fault(slot) is None,
        ensures
            final(self)@ == old(self)@.with_reg(
                slot,
                alu::dec8(old(self)@.reg(slot), old(self)@.flags).value,
            ).with_flags(alu::dec8(old(self)@.reg(slot), old(self)@.flags).flags),
    {
        let val = self.read_reg(slot);
        let low = low_nibble(val);
        let new_val = sub_wrapping(val, 1);
        self.write_reg(slot, new_val);
        self.set_z_flag(new_val == 0);
        self.set_n_flag(true);
        self.set_h_flag(low == 0);
    }
}

} // verus!
