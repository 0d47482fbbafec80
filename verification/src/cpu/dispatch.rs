//! The dispatch over the instruction set: for each instruction, the check
//! of its memory accesses and its effect.

use crate::alu;
use crate::cpu::arithmetic::{add_wrapping16, offset_address, sub_wrapping16};
use crate::cpu::{split, Cpu};
use crate::fault::Fault;
use crate::instr::{
    decode_cb, AluOp, CbInstr, Cond, Instr, Pair, Pointer, Slot, StackPair,
};
use crate::state::{cb_fault, execute, execute_cb, fault_of, CpuState};
use vstd::prelude::*;

verus! {

impl Cpu {
    /// The value of a 16-bit register as the stack instructions name it.
    pub fn get_stack_pair(&self, pair: StackPair) -> (value: u16)
        ensures
            value == self@.stack_pair(pair),
    {
        match pair {
            StackPair::BC => self.get_reg_bc(),
            StackPair::DE => self.get_reg_de(),
            StackPair::HL => self.get_reg_hl(),
            StackPair::AF => self.get_reg_af(),
        }
    }

    /// Puts `value` in a 16-bit register as the stack instructions name it.
    pub fn set_stack_pair(&mut self, pair: StackPair, value: u16)
        ensures
            final(self)@ == old(self)@.with_stack_pair(pair, value),
    {
        match pair {
            StackPair::BC => self.set_reg_bc(value),
            StackPair::DE => self.set_reg_de(value),
            StackPair::HL => self.set_reg_hl(value),
            StackPair::AF => self.set_reg_af(value),
        }
    }

    /// The first fault that an instruction of the bit-operation page would
    /// run into, if any.
    pub fn cb_fault(&self, instr: CbInstr) -> (fault: Option<Fault>)
        ensures
            fault == cb_fault(self@, instr),
    {
        match instr {
            CbInstr::TestBit(_, slot) => self.read_reg_check(slot),
            CbInstr::Shift(_, slot) | CbInstr::ResetBit(_, slot) | CbInstr::SetBit(_, slot) => {
                self.update_reg_check(slot)
            },
        }
    }

    /// Carries out an instruction of the bit-operation page. The program
    /// counter is not moved.
    pub fn execute_cb(&mut self, instr: CbInstr)
        requires
            instr.well_formed(),
            cb_fault(old(self)@, instr) is None,
        ensures
            final(self)@ == execute_cb(old(self)@, instr),
    {
        match instr {
            CbInstr::Shift(op, slot) => self.shift(op, slot),
            CbInstr::TestBit(n, slot) => self.bit(n, slot),
            CbInstr::ResetBit(n, slot) => self.res(n, slot),
            CbInstr::SetBit(n, slot) => self.set(n, slot),
        }
    }

    /// The first fault that the instruction of the bit-operation page at the
    /// program counter would run into, if any.
    pub fn cb_instruction_fault(&self) -> (fault: Option<Fault>)
        ensures
            fault == crate::state::cb_fault_here(self@),
    {
        let pc = self.get_pc();
        let first = self.read_check(pc);
        if first.is_some() {
            return first;
        }
        self.cb_fault(decode_cb(self.read(pc)))
    }

    /// Carries out the instruction of the bit-operation page whose code is
    /// at the program counter. The program counter is not moved.
    pub fn perform_cb_instruction(&mut self)
        requires
            crate::state::cb_fault_here(old(self)@) is None,
        ensures
            final(self)@ == crate::state::execute_cb_here(old(self)@),
    {
        let inst = self.read(self.get_pc());
        self.execute_cb(decode_cb(inst));
    }

    /// The first fault that an instruction of the main page would run into,
    /// if any.
    pub fn fault_of(&self, instr: Instr) -> (fault: Option<Fault>)
        ensures
            fault == fault_of(self@, instr),
    {
        proof {
            reveal(fault_of);
        }
        match instr {
            Instr::Halt => Some(Fault::Halt),
            Instr::Unknown(code) => Some(Fault::UnknownInstruction(code)),
            Instr::Prefix => {
                let first = self.read_check(self.ahead(1));
                if first.is_some() {
                    return first;
                }
                self.cb_fault(decode_cb(self.read(self.ahead(1))))
            },
            Instr::Ld(to, from) => {
                let first = self.read_reg_check(from);
                if first.is_some() {
                    return first;
                }
                self.write_reg_check(to)
            },
            Instr::LdImm(to) => {
                let first = self.read_u8_check();
                if first.is_some() {
                    return first;
                }
                self.write_reg_check(to)
            },
            Instr::LdPairImm(_) | Instr::Jp => self.read_u16_check(),
            Instr::LoadAbs => {
                let first = self.read_u16_check();
                if first.is_some() {
                    return first;
                }
                self.read_check(self.read_u16())
            },
            Instr::StoreSp => {
                let first = self.read_u16_check();
                if first.is_some() {
                    return first;
                }
                let addr = self.read_u16();
                let second = self.write_check(addr);
                if second.is_some() {
                    return second;
                }
                self.write_check(add_wrapping16(addr, 1))
            },
            Instr::LdHlSpOffset
            | Instr::AddSpOffset
            | Instr::AluImm(_)
            | Instr::Jr
            | Instr::JrIf(_) => self.read_u8_check(),
            Instr::StoreAt(pointer) => self.write_check(self.pointed(pointer)),
            Instr::LoadAt(pointer) => self.read_check(self.pointed(pointer)),
            Instr::StoreAbs => {
                let first = self.read_u16_check();
                if first.is_some() {
                    return first;
                }
                self.write_check(self.read_u16())
            },
            Instr::StoreHigh => {
                let first = self.read_u8_check();
                if first.is_some() {
                    return first;
                }
                self.write_check(high_page(self.read_u8()))
            },
            Instr::LoadHigh => {
                let first = self.read_u8_check();
                if first.is_some() {
                    return first;
                }
                self.read_check(high_page(self.read_u8()))
            },
            Instr::StoreHighC => self.write_check(high_page(self.get_reg_c())),
            Instr::LoadHighC => self.read_check(high_page(self.get_reg_c())),
            Instr::Alu(_, slot) => self.read_reg_check(slot),
            Instr::Inc(slot) | Instr::Dec(slot) => self.update_reg_check(slot),
            Instr::JpIf(cond) => {
                if self.holds(cond) {
                    self.read_u16_check()
                } else {
                    None
                }
            },
            Instr::Call => {
                let first = self.read_u16_check();
                if first.is_some() {
                    return first;
                }
                self.push_check()
            },
            Instr::CallIf(cond) => {
                let first = self.read_u16_check();
                if first.is_some() {
                    return first;
                }
                if self.holds(cond) {
                    self.push_check()
                } else {
                    None
                }
            },
            Instr::Ret | Instr::Reti | Instr::Pop(_) => self.pop_check(),
            Instr::RetIf(cond) => {
                if self.holds(cond) {
                    self.pop_check()
                } else {
                    None
                }
            },
            Instr::Rst(_) | Instr::Push(_) => self.push_check(),
            _ => None,
        }
    }

    /// Carries out the instruction of the bit-operation page that follows the prefix.
    pub fn do_prefix(&mut self)
        requires
            fault_of(old(self)@, Instr::Prefix) is None,
        ensures
            final(self)@ == execute(old(self)@, Instr::Prefix),
    {
        proof {
            reveal(fault_of);
            reveal(execute);
        }
        self.skip(1);
        self.perform_cb_instruction();
        self.skip(1);
    
    }

    /// Loads an operand from another.
    pub fn do_ld(&mut self, to: Slot, from: Slot)
        requires
            fault_of(old(self)@, Instr::Ld(to, from)) is None,
        ensures
            final(self)@ == execute(old(self)@, Instr::Ld(to, from)),
    {
        proof {
            reveal(fault_of);
            reveal(execute);
        }
        let value = self.read_reg(from);
        self.write_reg(to, value);
        self.skip(1);
    
    }

    /// Loads an operand from the byte that follows.
    pub fn do_ld_imm(&mut self, to: Slot)
        requires
            fault_of(old(self)@, Instr::LdImm(to)) is None,
        ensures
            final(self)@ == execute(old(self)@, Instr::LdImm(to)),
    {
        proof {
            reveal(fault_of);
            reveal(execute);
        }
        let value = self.read_u8();
        self.write_reg(to, value);
        self.skip(2);
    
    }

    /// Loads a 16-bit register from the word that follows.
    pub fn do_ld_pair_imm(&mut self, pair: Pair)
        requires
            fault_of(old(self)@, Instr::LdPairImm(pair)) is None,
        ensures
            final(self)@ == execute(old(self)@, Instr::LdPairImm(pair)),
    {
        proof {
            reveal(fault_of);
            reveal(execute);
        }
        let value = self.read_u16();
        self.set_pair(pair, value);
        self.skip(3);
    
    }

    /// Stores SP at the address that follows, low byte first.
    pub fn do_store_sp(&mut self)
        requires
            fault_of(old(self)@, Instr::StoreSp) is None,
        ensures
            final(self)@ == execute(old(self)@, Instr::StoreSp),
    {
        proof {
            reveal(fault_of);
            reveal(execute);
        }
        let addr = self.read_u16();
        let (msb, lsb) = split(self.get_sp());
        self.write(addr, lsb);
        self.write(add_wrapping16(addr, 1), msb);
        self.skip(3);
    
    }

    /// Loads HL with SP plus the signed byte that follows.
    pub fn do_ld_hl_sp_offset(&mut self)
        requires
            fault_of(old(self)@, Instr::LdHlSpOffset) is None,
        ensures
            final(self)@ == execute(old(self)@, Instr::LdHlSpOffset),
    {
        proof {
            reveal(fault_of);
            reveal(execute);
        }
        let offset = self.read_u8();
        let res = self.add_i16(self.get_sp(), offset);
        self.set_reg_hl(res);
        self.skip(2);
    
    }

    /// Adds the signed byte that follows to SP.
    pub fn do_add_sp_offset(&mut self)
        requires
            fault_of(old(self)@, Instr::AddSpOffset) is None,
        ensures
            final(self)@ == execute(old(self)@, Instr::AddSpOffset),
    {
        proof {
            reveal(fault_of);
            reveal(execute);
        }
        let offset = self.read_u8();
        let res = self.add_i16(self.get_sp(), offset);
        self.set_sp(res);
        self.skip(2);
    
    }

    /// Stores A where the pointer points.
    pub fn do_store_at(&mut self, pointer: Pointer)
        requires
            fault_of(old(self)@, Instr::StoreAt(pointer)) is None,
        ensures
            final(self)@ == execute(old(self)@, Instr::StoreAt(pointer)),
    {
        proof {
            reveal(fault_of);
            reveal(execute);
        }
        let addr = self.pointed(pointer);
        self.write(addr, self.get_reg_a());
        self.step_pointer(pointer);
        self.skip(1);
    
    }

    /// Loads A from where the pointer points.
    pub fn do_load_at(&mut self, pointer: Pointer)
        requires
            fault_of(old(self)@, Instr::LoadAt(pointer)) is None,
        ensures
            final(self)@ == execute(old(self)@, Instr::LoadAt(pointer)),
    {
        proof {
            reveal(fault_of);
            reveal(execute);
        }
        let addr = self.pointed(pointer);
        let value = self.read(addr);
        self.set_reg_a(value);
        self.step_pointer(pointer);
        self.skip(1);
    
    }

    /// Stores A at the address that follows.
    pub fn do_store_abs(&mut self)
        requires
            fault_of(old(self)@, Instr::StoreAbs) is None,
        ensures
            final(self)@ == execute(old(self)@, Instr::StoreAbs),
    {
        proof {
            reveal(fault_of);
            reveal(execute);
        }
        let addr = self.read_u16();
        self.write(addr, self.get_reg_a());
        self.skip(3);
    
    }

    /// Loads A from the address that follows.
    pub fn do_load_abs(&mut self)
        requires
            fault_of(old(self)@, Instr::LoadAbs) is None,
        ensures
            final(self)@ == execute(old(self)@, Instr::LoadAbs),
    {
        proof {
            reveal(fault_of);
            reveal(execute);
        }
        let addr = self.read_u16();
        let value = self.read(addr);
        self.set_reg_a(value);
        self.skip(3);
    
    }

    /// Stores A in the page at 0xFF00, at the offset that follows.
    pub fn do_store_high(&mut self)
        requires
            fault_of(old(self)@, Instr::StoreHigh) is None,
        ensures
            final(self)@ == execute(old(self)@, Instr::StoreHigh),
    {
        proof {
            reveal(fault_of);
            reveal(execute);
        }
        let addr = high_page(self.read_u8());
        self.write(addr, self.get_reg_a());
        self.skip(2);
    
    }

    /// Loads A from the page at 0xFF00, at the offset that follows.
    pub fn do_load_high(&mut self)
        requires
            fault_of(old(self)@, Instr::LoadHigh) is None,
        ensures
            final(self)@ == execute(old(self)@, Instr::LoadHigh),
    {
        proof {
            reveal(fault_of);
            reveal(execute);
        }
        let addr = high_page(self.read_u8());
        let value = self.read(addr);
        self.set_reg_a(value);
        self.skip(2);
    
    }

    /// Stores A in the page at 0xFF00, at the offset in C.
    pub fn do_store_high_c(&mut self)
        requires
            fault_of(old(self)@, Instr::StoreHighC) is None,
        ensures
            final(self)@ == execute(old(self)@, Instr::StoreHighC),
    {
        proof {
            reveal(fault_of);
            reveal(execute);
        }
        let addr = high_page(self.get_reg_c());
        self.write(addr, self.get_reg_a());
        self.skip(1);
    
    }

    /// Loads A from the page at 0xFF00, at the offset in C.
    pub fn do_load_high_c(&mut self)
        requires
            fault_of(old(self)@, Instr::LoadHighC) is None,
        ensures
            final(self)@ == execute(old(self)@, Instr::LoadHighC),
    {
        proof {
            reveal(fault_of);
            reveal(execute);
        }
        let addr = high_page(self.get_reg_c());
        let value = self.read(addr);
        self.set_reg_a(value);
        self.skip(1);
    
    }

    /// Operates on A with an operand.
    pub fn do_alu(&mut self, op: AluOp, slot: Slot)
        requires
            fault_of(old(self)@, Instr::Alu(op, slot)) is None,
        ensures
            final(self)@ == execute(old(self)@, Instr::Alu(op, slot)),
    {
        proof {
            reveal(fault_of);
            reveal(execute);
        }
        let value = self.read_reg(slot);
        self.alu(op, value);
        self.skip(1);
    
    }

    /// Operates on A with the byte that follows.
    pub fn do_alu_imm(&mut self, op: AluOp)
        requires
            fault_of(old(self)@, Instr::AluImm(op)) is None,
        ensures
            final(self)@ == execute(old(self)@, Instr::AluImm(op)),
    {
        proof {
            reveal(fault_of);
            reveal(execute);
        }
        let value = self.read_u8();
        self.alu(op, value);
        self.skip(2);
    
    }

    /// Increments an operand.
    pub fn do_inc(&mut self, slot: Slot)
        requires
            fault_of(old(self)@, Instr::Inc(slot)) is None,
        ensures
            final(self)@ == execute(old(self)@, Instr::Inc(slot)),
    {
        proof {
            reveal(fault_of);
            reveal(execute);
        }
        self.increment_register(slot);
        self.skip(1);
    
    }

    /// Decrements an operand.
    pub fn do_dec(&mut self, slot: Slot)
        requires
            fault_of(old(self)@, Instr::Dec(slot)) is None,
        ensures
            final(self)@ == execute(old(self)@, Instr::Dec(slot)),
    {
        proof {
            reveal(fault_of);
            reveal(execute);
        }
        self.decrement_register(slot);
        self.skip(1);
    
    }

    /// Increments a 16-bit register; no flag changes.
    pub fn do_inc_pair(&mut self, pair: Pair)
        requires
            fault_of(old(self)@, Instr::IncPair(pair)) is None,
        ensures
            final(self)@ == execute(old(self)@, Instr::IncPair(pair)),
    {
        proof {
            reveal(fault_of);
            reveal(execute);
        }
        self.set_pair(pair, add_wrapping16(self.get_pair(pair), 1));
        self.skip(1);
    
    }

    /// Decrements a 16-bit register; no flag changes.
    pub fn do_dec_pair(&mut self, pair: Pair)
        requires
            fault_of(old(self)@, Instr::DecPair(pair)) is None,
        ensures
            final(self)@ == execute(old(self)@, Instr::DecPair(pair)),
    {
        proof {
            reveal(fault_of);
            reveal(execute);
        }
        self.set_pair(pair, sub_wrapping16(self.get_pair(pair), 1));
        self.skip(1);
    
    }

    /// Adds a 16-bit register to HL.
    pub fn do_add_hl(&mut self, pair: Pair)
        requires
            fault_of(old(self)@, Instr::AddHl(pair)) is None,
        ensures
            final(self)@ == execute(old(self)@, Instr::AddHl(pair)),
    {
        proof {
            reveal(fault_of);
            reveal(execute);
        }
        let res = self.add_u16(self.get_reg_hl(), self.get_pair(pair));
        self.set_reg_hl(res);
        self.skip(1);
    
    }

    /// Rotates A to the left; the zero flag is cleared.
    pub fn do_rlca(&mut self)
        requires
            fault_of(old(self)@, Instr::Rlca) is None,
        ensures
            final(self)@ == execute(old(self)@, Instr::Rlca),
    {
        proof {
            reveal(fault_of);
            reveal(execute);
        }
        self.rlc(Slot::A);
        self.set_z_flag(false);
        self.skip(1);
    
    }

    /// Rotates A to the right; the zero flag is cleared.
    pub fn do_rrca(&mut self)
        requires
            fault_of(old(self)@, Instr::Rrca) is None,
        ensures
            final(self)@ == execute(old(self)@, Instr::Rrca),
    {
        proof {
            reveal(fault_of);
            reveal(execute);
        }
        self.rrc(Slot::A);
        self.set_z_flag(false);
        self.skip(1);
    
    }

    /// Rotates A to the left through the carry; the zero flag is cleared.
    pub fn do_rla(&mut self)
        requires
            fault_of(old(self)@, Instr::Rla) is None,
        ensures
            final(self)@ == execute(old(self)@, Instr::Rla),
    {
        proof {
            reveal(fault_of);
            reveal(execute);
        }
        self.rl(Slot::A);
        self.set_z_flag(false);
        self.skip(1);
    
    }

    /// Rotates A to the right through the carry; the zero flag is cleared.
    pub fn do_rra(&mut self)
        requires
            fault_of(old(self)@, Instr::Rra) is None,
        ensures
            final(self)@ == execute(old(self)@, Instr::Rra),
    {
        proof {
            reveal(fault_of);
            reveal(execute);
        }
        self.rr(Slot::A);
        self.set_z_flag(false);
        self.skip(1);
    
    }

    /// Jumps by the signed byte that follows, counted from the next instruction.
    pub fn do_jr(&mut self)
        requires
            fault_of(old(self)@, Instr::Jr) is None,
        ensures
            final(self)@ == execute(old(self)@, Instr::Jr),
    {
        proof {
            reveal(fault_of);
            reveal(execute);
        }
        let offset = self.read_u8();
        self.set_pc(offset_address(self.ahead(2), offset));
    
    }

    /// Jumps by the signed byte that follows where the condition holds.
    pub fn do_jr_if(&mut self, cond: Cond)
        requires
            fault_of(old(self)@, Instr::JrIf(cond)) is None,
        ensures
            final(self)@ == execute(old(self)@, Instr::JrIf(cond)),
    {
        proof {
            reveal(fault_of);
            reveal(execute);
        }
        let offset = self.read_u8();
        self.skip(2);
        if self.holds(cond) {
            self.set_pc(offset_address(self.get_pc(), offset));
        }
    
    }

    /// Jumps to the address that follows.
    pub fn do_jp(&mut self)
        requires
            fault_of(old(self)@, Instr::Jp) is None,
        ensures
            final(self)@ == execute(old(self)@, Instr::Jp),
    {
        proof {
            reveal(fault_of);
            reveal(execute);
        }
        let target = self.read_u16();
        self.set_pc(target);
    
    }

    /// Jumps to the address that follows where the condition holds.
    pub fn do_jp_if(&mut self, cond: Cond)
        requires
            fault_of(old(self)@, Instr::JpIf(cond)) is None,
        ensures
            final(self)@ == execute(old(self)@, Instr::JpIf(cond)),
    {
        proof {
            reveal(fault_of);
            reveal(execute);
        }
        if self.holds(cond) {
            let target = self.read_u16();
            self.set_pc(target);
        } else {
            self.skip(3);
        }
    
    }

    /// Pushes the address of the next instruction and jumps to the address that follows.
    pub fn do_call(&mut self)
        requires
            fault_of(old(self)@, Instr::Call) is None,
        ensures
            final(self)@ == execute(old(self)@, Instr::Call),
    {
        proof {
            reveal(fault_of);
            reveal(execute);
        }
        let addr = self.read_u16();
        self.push(self.ahead(3));
        self.set_pc(addr);
    
    }

    /// Calls the address that follows where the condition holds.
    pub fn do_call_if(&mut self, cond: Cond)
        requires
            fault_of(old(self)@, Instr::CallIf(cond)) is None,
        ensures
            final(self)@ == execute(old(self)@, Instr::CallIf(cond)),
    {
        proof {
            reveal(fault_of);
            reveal(execute);
        }
        let addr = self.read_u16();
        if self.holds(cond) {
            self.push(self.ahead(3));
            self.set_pc(addr);
        } else {
            self.skip(3);
        }
    
    }

    /// Returns to the address on top of the stack.
    pub fn do_ret(&mut self)
        requires
            fault_of(old(self)@, Instr::Ret) is None,
        ensures
            final(self)@ == execute(old(self)@, Instr::Ret),
    {
        proof {
            reveal(fault_of);
            reveal(execute);
        }
        let value = self.pop();
        self.set_pc(value);
    
    }

    /// Returns where the condition holds.
    pub fn do_ret_if(&mut self, cond: Cond)
        requires
            fault_of(old(self)@, Instr::RetIf(cond)) is None,
        ensures
            final(self)@ == execute(old(self)@, Instr::RetIf(cond)),
    {
        proof {
            reveal(fault_of);
            reveal(execute);
        }
        if self.holds(cond) {
            let value = self.pop();
            self.set_pc(value);
        } else {
            self.skip(1);
        }
    
    }

    /// Returns and enables interrupts.
    pub fn do_reti(&mut self)
        requires
            fault_of(old(self)@, Instr::Reti) is None,
        ensures
            final(self)@ == execute(old(self)@, Instr::Reti),
    {
        proof {
            reveal(fault_of);
            reveal(execute);
        }
        let value = self.pop();
        self.set_ime(true);
        self.set_pc(value);
    
    }

    /// Pushes the address of the next instruction and jumps to a fixed address.
    pub fn do_rst(&mut self, target: u8)
        requires
            fault_of(old(self)@, Instr::Rst(target)) is None,
        ensures
            final(self)@ == execute(old(self)@, Instr::Rst(target)),
    {
        proof {
            reveal(fault_of);
            reveal(execute);
        }
        self.push(self.ahead(1));
        self.set_pc(target as u16);
    
    }

    /// Pushes a 16-bit register.
    pub fn do_push(&mut self, pair: StackPair)
        requires
            fault_of(old(self)@, Instr::Push(pair)) is None,
        ensures
            final(self)@ == execute(old(self)@, Instr::Push(pair)),
    {
        proof {
            reveal(fault_of);
            reveal(execute);
        }
        self.push(self.get_stack_pair(pair));
        self.skip(1);
    
    }

    /// Pops a 16-bit register.
    pub fn do_pop(&mut self, pair: StackPair)
        requires
            fault_of(old(self)@, Instr::Pop(pair)) is None,
        ensures
            final(self)@ == execute(old(self)@, Instr::Pop(pair)),
    {
        proof {
            reveal(fault_of);
            reveal(execute);
        }
        let val = self.pop();
        self.set_stack_pair(pair, val);
        self.skip(1);
    
    }

    /// Does nothing.
    pub fn do_nop(&mut self)
        requires
            fault_of(old(self)@, Instr::Nop) is None,
        ensures
            final(self)@ == execute(old(self)@, Instr::Nop),
    {
        proof {
            reveal(fault_of);
            reveal(execute);
        }
        self.skip(1);
    }

    /// Disables interrupts.
    pub fn do_di(&mut self)
        requires
            fault_of(old(self)@, Instr::Di) is None,
        ensures
            final(self)@ == execute(old(self)@, Instr::Di),
    {
        proof {
            reveal(fault_of);
            reveal(execute);
        }
        self.set_ime(false);
        self.skip(1);
    }

    /// Enables interrupts, at once.
    pub fn do_ei(&mut self)
        requires
            fault_of(old(self)@, Instr::Ei) is None,
        ensures
            final(self)@ == execute(old(self)@, Instr::Ei),
    {
        proof {
            reveal(fault_of);
            reveal(execute);
        }
        self.set_ime(true);
        self.skip(1);
    }

    /// Loads SP from HL.
    pub fn do_ld_sp_hl(&mut self)
        requires
            fault_of(old(self)@, Instr::LdSpHl) is None,
        ensures
            final(self)@ == execute(old(self)@, Instr::LdSpHl),
    {
        proof {
            reveal(fault_of);
            reveal(execute);
        }
        self.set_sp(self.get_reg_hl());
        self.skip(1);
    }

    /// Adjusts A to packed decimal.
    pub fn do_daa(&mut self)
        requires
            fault_of(old(self)@, Instr::Daa) is None,
        ensures
            final(self)@ == execute(old(self)@, Instr::Daa),
    {
        proof {
            reveal(fault_of);
            reveal(execute);
        }
        self.daa();
        self.skip(1);
    }

    /// Complements A.
    pub fn do_cpl(&mut self)
        requires
            fault_of(old(self)@, Instr::Cpl) is None,
        ensures
            final(self)@ == execute(old(self)@, Instr::Cpl),
    {
        proof {
            reveal(fault_of);
            reveal(execute);
        }
        self.cpl();
        self.skip(1);
    }

    /// Sets the carry flag.
    pub fn do_scf(&mut self)
        requires
            fault_of(old(self)@, Instr::Scf) is None,
        ensures
            final(self)@ == execute(old(self)@, Instr::Scf),
    {
        proof {
            reveal(fault_of);
            reveal(execute);
        }
        self.scf();
        self.skip(1);
    }

    /// Inverts the carry flag.
    pub fn do_ccf(&mut self)
        requires
            fault_of(old(self)@, Instr::Ccf) is None,
        ensures
            final(self)@ == execute(old(self)@, Instr::Ccf),
    {
        proof {
            reveal(fault_of);
            reveal(execute);
        }
        self.ccf();
        self.skip(1);
    }

    /// Jumps to the address in HL.
    pub fn do_jp_hl(&mut self)
        requires
            fault_of(old(self)@, Instr::JpHl) is None,
        ensures
            final(self)@ == execute(old(self)@, Instr::JpHl),
    {
        proof {
            reveal(fault_of);
            reveal(execute);
        }
        self.set_pc(self.get_reg_hl());
    }

    /// Carries out an instruction that moves data.
    pub fn execute_transfer(&mut self, instr: Instr)
        requires
            instr.is_transfer(),
            fault_of(old(self)@, instr) is None,
        ensures
            final(self)@ == execute(old(self)@, instr),
    {
        match instr {
            Instr::Ld(to, from) => self.do_ld(to, from),
            Instr::LdImm(to) => self.do_ld_imm(to),
            Instr::LdPairImm(pair) => self.do_ld_pair_imm(pair),
            Instr::StoreSp => self.do_store_sp(),
            Instr::LdSpHl => self.do_ld_sp_hl(),
            Instr::StoreAt(pointer) => self.do_store_at(pointer),
            Instr::LoadAt(pointer) => self.do_load_at(pointer),
            Instr::StoreAbs => self.do_store_abs(),
            Instr::LoadAbs => self.do_load_abs(),
            Instr::StoreHigh => self.do_store_high(),
            Instr::LoadHigh => self.do_load_high(),
            Instr::StoreHighC => self.do_store_high_c(),
            Instr::LoadHighC => self.do_load_high_c(),
            Instr::Push(pair) => self.do_push(pair),
            Instr::Pop(pair) => self.do_pop(pair),
            _ => {},
        }
    }

    /// Carries out an instruction that computes.
    pub fn execute_computation(&mut self, instr: Instr)
        requires
            instr.is_computation(),
            fault_of(old(self)@, instr) is None,
        ensures
            final(self)@ == execute(old(self)@, instr),
    {
        match instr {
            Instr::Alu(op, slot) => self.do_alu(op, slot),
            Instr::AluImm(op) => self.do_alu_imm(op),
            Instr::Inc(slot) => self.do_inc(slot),
            Instr::Dec(slot) => self.do_dec(slot),
            Instr::IncPair(pair) => self.do_inc_pair(pair),
            Instr::DecPair(pair) => self.do_dec_pair(pair),
            Instr::AddHl(pair) => self.do_add_hl(pair),
            Instr::AddSpOffset => self.do_add_sp_offset(),
            Instr::LdHlSpOffset => self.do_ld_hl_sp_offset(),
            Instr::Rlca => self.do_rlca(),
            Instr::Rrca => self.do_rrca(),
            Instr::Rla => self.do_rla(),
            Instr::Rra => self.do_rra(),
            Instr::Daa => self.do_daa(),
            Instr::Cpl => self.do_cpl(),
            Instr::Scf => self.do_scf(),
            Instr::Ccf => self.do_ccf(),
            _ => {},
        }
    }

    /// Carries out an instruction of control.
    pub fn execute_control(&mut self, instr: Instr)
        requires
            instr.is_control(),
            fault_of(old(self)@, instr) is None,
        ensures
            final(self)@ == execute(old(self)@, instr),
    {
        match instr {
            Instr::Nop => self.do_nop(),
            Instr::Di => self.do_di(),
            Instr::Ei => self.do_ei(),
            Instr::Prefix => self.do_prefix(),
            Instr::Jr => self.do_jr(),
            Instr::JrIf(cond) => self.do_jr_if(cond),
            Instr::Jp => self.do_jp(),
            Instr::JpIf(cond) => self.do_jp_if(cond),
            Instr::JpHl => self.do_jp_hl(),
            Instr::Call => self.do_call(),
            Instr::CallIf(cond) => self.do_call_if(cond),
            Instr::Ret => self.do_ret(),
            Instr::RetIf(cond) => self.do_ret_if(cond),
            Instr::Reti => self.do_reti(),
            Instr::Rst(target) => self.do_rst(target),
            _ => {},
        }
    }

    /// Carries out an instruction of the main page and moves the program
    /// counter to the instruction that comes next.
    pub fn execute(&mut self, instr: Instr)
        requires
            fault_of(old(self)@, instr) is None,
        ensures
            final(self)@ == execute(old(self)@, instr),
    {
        match instr {
            Instr::Halt | Instr::Unknown(_) => {
                assert(false) by {
                    reveal(fault_of);
                }
            },
            Instr::Ld(_, _)
            | Instr::LdImm(_)
            | Instr::LdPairImm(_)
            | Instr::StoreSp
            | Instr::LdSpHl
            | Instr::StoreAt(_)
            | Instr::LoadAt(_)
            | Instr::StoreAbs
            | Instr::LoadAbs
            | Instr::StoreHigh
            | Instr::LoadHigh
            | Instr::StoreHighC
            | Instr::LoadHighC
            | Instr::Push(_)
            | Instr::Pop(_) => self.execute_transfer(instr),
            Instr::Alu(_, _)
            | Instr::AluImm(_)
            | Instr::Inc(_)
            | Instr::Dec(_)
            | Instr::IncPair(_)
            | Instr::DecPair(_)
            | Instr::AddHl(_)
            | Instr::AddSpOffset
            | Instr::LdHlSpOffset
            | Instr::Rlca
            | Instr::Rrca
            | Instr::Rla
            | Instr::Rra
            | Instr::Daa
            | Instr::Cpl
            | Instr::Scf
            | Instr::Ccf => self.execute_computation(instr),
            _ => self.execute_control(instr),
        }
    }
}

/// The address 0xFF00 plus `offset`.
pub fn high_page(offset: u8) -> (addr: u16)
    ensures
        addr == CpuState::high_page(offset),
{
    0xFF00 + (offset as u16)
}

} // verus!