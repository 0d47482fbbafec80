//! The machine as a value: registers, flags and the address space, with what
//! each instruction makes of them.

use crate::alu;
use crate::alu::{wrap16, Outcome};
use crate::bus::{read_fault, write_fault, IE, IF};
use crate::fault::{first_of, Fault};
use crate::flags::{flags_byte, flags_of, Flags};
use crate::instr::{
    cb_instruction_of, instruction_of, AluOp, CbInstr, Cond, Instr, Pair, Pointer, ShiftOp, Slot,
    StackPair,
};
use crate::io::io::{SB, SC};
use vstd::prelude::*;

verus! {

/// The byte that a program writes to the serial control register to send the
/// byte in the serial data register.
pub const SERIAL_SEND: u8 = 0x81;

/// The handler address of the interrupt of highest priority; the others
/// follow at steps of eight.
pub const FIRST_VECTOR: u16 = 0x40;

/// The number of interrupt sources.
pub const INTERRUPTS: u8 = 5;

/// The word with the given high and low byte.
pub open spec fn word(high: u8, low: u8) -> u16 {
    (high * 0x100 + low) as u16
}

/// The high byte of a word.
pub open spec fn high_byte(value: u16) -> u8 {
    (value / 0x100) as u8
}

/// The low byte of a word.
pub open spec fn low_byte(value: u16) -> u8 {
    (value % 0x100) as u8
}

/// The state of the processor and of the address space it works on.
#[verifier::ext_equal]
pub struct CpuState {
    pub a: u8,
    pub flags: Flags,
    pub b: u8,
    pub c: u8,
    pub d: u8,
    pub e: u8,
    pub h: u8,
    pub l: u8,
    /// The stack pointer.
    pub sp: u16,
    /// The program counter.
    pub pc: u16,
    /// Whether interrupts are enabled as a whole.
    pub ime: bool,
    /// The byte at each mapped address.
    pub memory: Map<u16, u8>,
}

impl CpuState {
    /// The state after reset, on the given address space.
    pub open spec fn reset(memory: Map<u16, u8>) -> CpuState {
        CpuState {
            a: 0x01,
            flags: Flags { z: true, n: false, h: true, c: true },
            b: 0x00,
            c: 0x13,
            d: 0x00,
            e: 0xD8,
            h: 0x01,
            l: 0x4D,
            sp: 0xFFFE,
            pc: 0x0100,
            ime: false,
            memory,
        }
    }

    /// The flag register.
    pub open spec fn f(self) -> u8 {
        flags_byte(self.flags)
    }

    /// A and the flag register as a word.
    pub open spec fn af(self) -> u16 {
        word(self.a, self.f())
    }

    /// B and C as a word.
    pub open spec fn bc(self) -> u16 {
        word(self.b, self.c)
    }

    /// D and E as a word.
    pub open spec fn de(self) -> u16 {
        word(self.d, self.e)
    }

    /// H and L as a word.
    pub open spec fn hl(self) -> u16 {
        word(self.h, self.l)
    }

    /// AF written as a word: the low nibble of the value is dropped.
    pub open spec fn with_af(self, value: u16) -> CpuState {
        CpuState { a: high_byte(value), flags: flags_of(low_byte(value)), ..self }
    }

    /// BC written as a word: B takes the high byte, C the low one.
    pub open spec fn with_bc(self, value: u16) -> CpuState {
        CpuState { b: high_byte(value), c: low_byte(value), ..self }
    }

    /// DE written as a word: D takes the high byte, E the low one.
    pub open spec fn with_de(self, value: u16) -> CpuState {
        CpuState { d: high_byte(value), e: low_byte(value), ..self }
    }

    /// HL written as a word: H takes the high byte, L the low one.
    pub open spec fn with_hl(self, value: u16) -> CpuState {
        CpuState { h: high_byte(value), l: low_byte(value), ..self }
    }

    /// The state with the given flags.
    pub open spec fn with_flags(self, flags: Flags) -> CpuState {
        CpuState { flags, ..self }
    }

    /// A and the flags replaced by an outcome of the arithmetic unit.
    pub open spec fn with_outcome(self, outcome: Outcome) -> CpuState {
        CpuState { a: outcome.value, flags: outcome.flags, ..self }
    }

    /// The byte at `addr`.
    pub open spec fn read(self, addr: u16) -> u8 {
        self.memory[addr]
    }

    /// The state after a write of `value` to `addr`.
    pub open spec fn written(self, addr: u16, value: u8) -> CpuState {
        CpuState { memory: self.memory.insert(addr, value), ..self }
    }

    /// The value of an 8-bit operand.
    pub open spec fn reg(self, slot: Slot) -> u8 {
        match slot {
            Slot::B => self.b,
            Slot::C => self.c,
            Slot::D => self.d,
            Slot::E => self.e,
            Slot::H => self.h,
            Slot::L => self.l,
            Slot::AtHl => self.read(self.hl()),
            Slot::A => self.a,
        }
    }

    /// The state after `value` is put in an 8-bit operand.
    pub open spec fn with_reg(self, slot: Slot, value: u8) -> CpuState {
        match slot {
            Slot::B => CpuState { b: value, ..self },
            Slot::C => CpuState { c: value, ..self },
            Slot::D => CpuState { d: value, ..self },
            Slot::E => CpuState { e: value, ..self },
            Slot::H => CpuState { h: value, ..self },
            Slot::L => CpuState { l: value, ..self },
            Slot::AtHl => self.written(self.hl(), value),
            Slot::A => CpuState { a: value, ..self },
        }
    }

    /// The value of a 16-bit register.
    pub open spec fn pair(self, pair: Pair) -> u16 {
        match pair {
            Pair::BC => self.bc(),
            Pair::DE => self.de(),
            Pair::HL => self.hl(),
            Pair::SP => self.sp,
        }
    }

    /// The state after `value` is put in a 16-bit register.
    pub open spec fn with_pair(self, pair: Pair, value: u16) -> CpuState {
        match pair {
            Pair::BC => self.with_bc(value),
            Pair::DE => self.with_de(value),
            Pair::HL => self.with_hl(value),
            Pair::SP => CpuState { sp: value, ..self },
        }
    }

    /// The value of a 16-bit register as the stack instructions name it.
    pub open spec fn stack_pair(self, pair: StackPair) -> u16 {
        match pair {
            StackPair::BC => self.bc(),
            StackPair::DE => self.de(),
            StackPair::HL => self.hl(),
            StackPair::AF => self.af(),
        }
    }

    /// The state after `value` is put in a 16-bit register as the stack
    /// instructions name it.
    pub open spec fn with_stack_pair(self, pair: StackPair, value: u16) -> CpuState {
        match pair {
            StackPair::BC => self.with_bc(value),
            StackPair::DE => self.with_de(value),
            StackPair::HL => self.with_hl(value),
            StackPair::AF => self.with_af(value),
        }
    }

    /// Whether a condition holds of the flags.
    pub open spec fn holds(self, cond: Cond) -> bool {
        match cond {
            Cond::NZ => !self.flags.z,
            Cond::Z => self.flags.z,
            Cond::NC => !self.flags.c,
            Cond::C => self.flags.c,
        }
    }

    /// The address `offset` bytes past the program counter.
    pub open spec fn ahead(self, offset: int) -> u16 {
        wrap16(self.pc + offset)
    }

    /// The state with the program counter moved on by `length`.
    pub open spec fn skip(self, length: int) -> CpuState {
        CpuState { pc: self.ahead(length), ..self }
    }

    /// The state with the program counter at `target`.
    pub open spec fn jump(self, target: u16) -> CpuState {
        CpuState { pc: target, ..self }
    }

    /// The byte that follows the instruction code.
    pub open spec fn operand8(self) -> u8 {
        self.read(self.ahead(1))
    }

    /// The word that follows the instruction code, low byte first.
    pub open spec fn operand16(self) -> u16 {
        word(self.read(self.ahead(2)), self.read(self.ahead(1)))
    }

    /// The address 0xFF00 plus `offset`.
    pub open spec fn high_page(offset: u8) -> u16 {
        (0xFF00 + offset) as u16
    }

    /// The state after `value` is pushed: the stack pointer goes down by two,
    /// the high byte lies above the low byte.
    pub open spec fn pushed(self, value: u16) -> CpuState {
        CpuState {
            sp: wrap16(self.sp - 2),
            memory: self.memory.insert(wrap16(self.sp - 1), high_byte(value)).insert(
                wrap16(self.sp - 2),
                low_byte(value),
            ),
            ..self
        }
    }

    /// The word on top of the stack.
    pub open spec fn top(self) -> u16 {
        word(self.read(wrap16(self.sp + 1)), self.read(self.sp))
    }

    /// The state after the word on top of the stack is taken off.
    pub open spec fn dropped(self) -> CpuState {
        CpuState { sp: wrap16(self.sp + 2), ..self }
    }

    /// The address that a pointer gives.
    pub open spec fn pointed(self, pointer: Pointer) -> u16 {
        match pointer {
            Pointer::BC => self.bc(),
            Pointer::DE => self.de(),
            Pointer::HlInc | Pointer::HlDec => self.hl(),
        }
    }

    /// The state after a pointer was used: HL moves on where the pointer
    /// says so.
    pub open spec fn stepped(self, pointer: Pointer) -> CpuState {
        match pointer {
            Pointer::BC | Pointer::DE => self,
            Pointer::HlInc => self.with_hl(wrap16(self.hl() + 1)),
            Pointer::HlDec => self.with_hl(wrap16(self.hl() - 1)),
        }
    }

    /// The fault of reading the byte that follows the code.
    pub open spec fn operand8_fault(self) -> Option<Fault> {
        read_fault(self.memory, self.ahead(1))
    }

    /// The fault of reading the word that follows the code.
    pub open spec fn operand16_fault(self) -> Option<Fault> {
        first_of(read_fault(self.memory, self.ahead(1)), read_fault(self.memory, self.ahead(2)))
    }

    /// The fault of reading an 8-bit operand.
    pub open spec fn reg_read_fault(self, slot: Slot) -> Option<Fault> {
        if slot is AtHl {
            read_fault(self.memory, self.hl())
        } else {
            None
        }
    }

    /// The fault of writing an 8-bit operand.
    pub open spec fn reg_write_fault(self, slot: Slot) -> Option<Fault> {
        if slot is AtHl {
            write_fault(self.memory, self.hl())
        } else {
            None
        }
    }

    /// The fault of reading an 8-bit operand and writing it back.
    pub open spec fn reg_update_fault(self, slot: Slot) -> Option<Fault> {
        first_of(self.reg_read_fault(slot), self.reg_write_fault(slot))
    }

    /// The fault of pushing a word.
    pub open spec fn push_fault(self) -> Option<Fault> {
        first_of(
            write_fault(self.memory, wrap16(self.sp - 1)),
            write_fault(self.memory, wrap16(self.sp - 2)),
        )
    }

    /// The fault of popping a word.
    pub open spec fn pop_fault(self) -> Option<Fault> {
        first_of(read_fault(self.memory, self.sp), read_fault(self.memory, wrap16(self.sp + 1)))
    }
}

/// What an accumulator operation gives for A and the flags. A comparison
/// leaves A as it is.
pub open spec fn alu_outcome(op: AluOp, a: u8, operand: u8, flags: Flags) -> Outcome {
    match op {
        AluOp::Add => alu::add8(a, operand),
        AluOp::Adc => alu::adc8(a, operand, flags.c),
        AluOp::Sub => alu::sub8(a, operand),
        AluOp::Sbc => alu::sbc8(a, operand, flags.c),
        AluOp::And => alu::and8(a, operand),
        AluOp::Xor => alu::xor8(a, operand),
        AluOp::Or => alu::or8(a, operand),
        AluOp::Cp => Outcome { value: a, flags: alu::cp8(a, operand) },
    }
}

/// What a rotation or shift gives for its operand and the flags.
pub open spec fn shift_outcome(op: ShiftOp, value: u8, carry: bool) -> Outcome {
    match op {
        ShiftOp::Rlc => alu::rlc(value),
        ShiftOp::Rrc => alu::rrc(value),
        ShiftOp::Rl => alu::rl(value, carry),
        ShiftOp::Rr => alu::rr(value, carry),
        ShiftOp::Sla => alu::sla(value),
        ShiftOp::Sra => alu::sra(value),
        ShiftOp::Swap => alu::swap(value),
        ShiftOp::Srl => alu::srl(value),
    }
}

/// An outcome with the zero flag cleared, as the rotations of A in the main
/// page leave it.
pub open spec fn without_zero(outcome: Outcome) -> Outcome {
    Outcome { value: outcome.value, flags: Flags { z: false, ..outcome.flags } }
}

/// The state after an instruction of the bit-operation page. The program
/// counter is not moved.
pub open spec fn execute_cb(s: CpuState, instr: CbInstr) -> CpuState {
    match instr {
        CbInstr::Shift(op, slot) => {
            let outcome = shift_outcome(op, s.reg(slot), s.flags.c);
            s.with_reg(slot, outcome.value).with_flags(outcome.flags)
        },
        CbInstr::TestBit(n, slot) => s.with_flags(alu::bit_test(n, s.reg(slot), s.flags)),
        CbInstr::ResetBit(n, slot) => s.with_reg(slot, alu::bit_reset(n, s.reg(slot))),
        CbInstr::SetBit(n, slot) => s.with_reg(slot, alu::bit_set(n, s.reg(slot))),
    }
}

/// The first fault that an instruction of the bit-operation page runs into.
pub open spec fn cb_fault(s: CpuState, instr: CbInstr) -> Option<Fault> {
    match instr {
        CbInstr::TestBit(_, slot) => s.reg_read_fault(slot),
        CbInstr::Shift(_, slot) | CbInstr::ResetBit(_, slot) | CbInstr::SetBit(_, slot) => {
            s.reg_update_fault(slot)
        },
    }
}

/// The state after the instruction of the bit-operation page whose code is
/// at the program counter. The program counter is not moved.
pub open spec fn execute_cb_here(s: CpuState) -> CpuState {
    execute_cb(s, cb_instruction_of(s.read(s.pc)))
}

/// The first fault that the instruction of the bit-operation page at the
/// program counter runs into: that of reading its code, or one of its own.
pub open spec fn cb_fault_here(s: CpuState) -> Option<Fault> {
    first_of(read_fault(s.memory, s.pc), cb_fault(s, cb_instruction_of(s.read(s.pc))))
}

/// The state after an instruction of the main page, program counter
/// included. Where the instruction faults, the state is of no account.
#[verifier::opaque]
pub open spec fn execute(s: CpuState, instr: Instr) -> CpuState {
    match instr {
        Instr::Nop => s.skip(1),
        Instr::Halt | Instr::Unknown(_) => s,
        Instr::Di => CpuState { ime: false, ..s.skip(1) },
        Instr::Ei => CpuState { ime: true, ..s.skip(1) },
        Instr::Prefix => execute_cb_here(s.skip(1)).skip(1),
        Instr::Ld(to, from) => s.with_reg(to, s.reg(from)).skip(1),
        Instr::LdImm(to) => s.with_reg(to, s.operand8()).skip(2),
        Instr::LdPairImm(pair) => s.with_pair(pair, s.operand16()).skip(3),
        Instr::StoreSp => {
            let addr = s.operand16();
            s.written(addr, low_byte(s.sp)).written(wrap16(addr + 1), high_byte(s.sp)).skip(3)
        },
        Instr::LdSpHl => CpuState { sp: s.hl(), ..s.skip(1) },
        Instr::LdHlSpOffset => {
            let sum = alu::add_sp(s.sp, s.operand8());
            s.with_hl(sum.value).with_flags(sum.flags).skip(2)
        },
        Instr::AddSpOffset => {
            let sum = alu::add_sp(s.sp, s.operand8());
            CpuState { sp: sum.value, flags: sum.flags, ..s.skip(2) }
        },
        Instr::StoreAt(pointer) => s.written(s.pointed(pointer), s.a).stepped(pointer).skip(1),
        Instr::LoadAt(pointer) => CpuState { a: s.read(s.pointed(pointer)), ..s }.stepped(
            pointer,
        ).skip(1),
        Instr::StoreAbs => s.written(s.operand16(), s.a).skip(3),
        Instr::LoadAbs => CpuState { a: s.read(s.operand16()), ..s.skip(3) },
        Instr::StoreHigh => s.written(CpuState::high_page(s.operand8()), s.a).skip(2),
        Instr::LoadHigh => CpuState { a: s.read(CpuState::high_page(s.operand8())), ..s.skip(2) },
        Instr::StoreHighC => s.written(CpuState::high_page(s.c), s.a).skip(1),
        Instr::LoadHighC => CpuState { a: s.read(CpuState::high_page(s.c)), ..s.skip(1) },
        Instr::Alu(op, slot) => s.with_outcome(alu_outcome(op, s.a, s.reg(slot), s.flags)).skip(1),
        Instr::AluImm(op) => s.with_outcome(alu_outcome(op, s.a, s.operand8(), s.flags)).skip(2),
        Instr::Inc(slot) => {
            let outcome = alu::inc8(s.reg(slot), s.flags);
            s.with_reg(slot, outcome.value).with_flags(outcome.flags).skip(1)
        },
        Instr::Dec(slot) => {
            let outcome = alu::dec8(s.reg(slot), s.flags);
            s.with_reg(slot, outcome.value).with_flags(outcome.flags).skip(1)
        },
        Instr::IncPair(pair) => s.with_pair(pair, wrap16(s.pair(pair) + 1)).skip(1),
        Instr::DecPair(pair) => s.with_pair(pair, wrap16(s.pair(pair) - 1)).skip(1),
        Instr::AddHl(pair) => {
            let sum = alu::add16(s.hl(), s.pair(pair), s.flags);
            s.with_hl(sum.value).with_flags(sum.flags).skip(1)
        },
        Instr::Rlca => s.with_outcome(without_zero(alu::rlc(s.a))).skip(1),
        Instr::Rrca => s.with_outcome(without_zero(alu::rrc(s.a))).skip(1),
        Instr::Rla => s.with_outcome(without_zero(alu::rl(s.a, s.flags.c))).skip(1),
        Instr::Rra => s.with_outcome(without_zero(alu::rr(s.a, s.flags.c))).skip(1),
        Instr::Daa => s.with_outcome(alu::daa(s.a, s.flags)).skip(1),
        Instr::Cpl => s.with_outcome(alu::cpl(s.a, s.flags)).skip(1),
        Instr::Scf => s.with_flags(alu::scf(s.flags)).skip(1),
        Instr::Ccf => s.with_flags(alu::ccf(s.flags)).skip(1),
        Instr::Jr => s.jump(wrap16(s.ahead(2) + alu::signed(s.operand8()))),
        Instr::JrIf(cond) => if s.holds(cond) {
            s.jump(wrap16(s.ahead(2) + alu::signed(s.operand8())))
        } else {
            s.skip(2)
        },
        Instr::Jp => s.jump(s.operand16()),
        Instr::JpIf(cond) => if s.holds(cond) {
            s.jump(s.operand16())
        } else {
            s.skip(3)
        },
        Instr::JpHl => s.jump(s.hl()),
        Instr::Call => s.pushed(s.ahead(3)).jump(s.operand16()),
        Instr::CallIf(cond) => if s.holds(cond) {
            s.pushed(s.ahead(3)).jump(s.operand16())
        } else {
            s.skip(3)
        },
        Instr::Ret => s.dropped().jump(s.top()),
        Instr::RetIf(cond) => if s.holds(cond) {
            s.dropped().jump(s.top())
        } else {
            s.skip(1)
        },
        Instr::Reti => CpuState { ime: true, ..s.dropped().jump(s.top()) },
        Instr::Rst(target) => s.pushed(s.ahead(1)).jump(target as u16),
        Instr::Push(pair) => s.pushed(s.stack_pair(pair)).skip(1),
        Instr::Pop(pair) => s.dropped().with_stack_pair(pair, s.top()).skip(1),
    }
}

/// The first fault that an instruction of the main page runs into, if any.
/// The accesses are checked in the order in which they are made.
#[verifier::opaque]
pub open spec fn fault_of(s: CpuState, instr: Instr) -> Option<Fault> {
    match instr {
        Instr::Halt => Some(Fault::Halt),
        Instr::Unknown(code) => Some(Fault::UnknownInstruction(code)),
        Instr::Prefix => cb_fault_here(s.skip(1)),
        Instr::Ld(to, from) => first_of(s.reg_read_fault(from), s.reg_write_fault(to)),
        Instr::LdImm(to) => first_of(s.operand8_fault(), s.reg_write_fault(to)),
        Instr::LdPairImm(_) | Instr::Jp => s.operand16_fault(),
        Instr::LoadAbs => first_of(s.operand16_fault(), read_fault(s.memory, s.operand16())),
        Instr::StoreSp => first_of(
            s.operand16_fault(),
            first_of(
                write_fault(s.memory, s.operand16()),
                write_fault(s.memory, wrap16(s.operand16() + 1)),
            ),
        ),
        Instr::LdHlSpOffset | Instr::AddSpOffset | Instr::AluImm(_) | Instr::Jr | Instr::JrIf(
            _,
        ) => s.operand8_fault(),
        Instr::StoreAt(pointer) => write_fault(s.memory, s.pointed(pointer)),
        Instr::LoadAt(pointer) => read_fault(s.memory, s.pointed(pointer)),
        Instr::StoreAbs => first_of(s.operand16_fault(), write_fault(s.memory, s.operand16())),
        Instr::StoreHigh => first_of(
            s.operand8_fault(),
            write_fault(s.memory, CpuState::high_page(s.operand8())),
        ),
        Instr::LoadHigh => first_of(
            s.operand8_fault(),
            read_fault(s.memory, CpuState::high_page(s.operand8())),
        ),
        Instr::StoreHighC => write_fault(s.memory, CpuState::high_page(s.c)),
        Instr::LoadHighC => read_fault(s.memory, CpuState::high_page(s.c)),
        Instr::Alu(_, slot) => s.reg_read_fault(slot),
        Instr::Inc(slot) | Instr::Dec(slot) => s.reg_update_fault(slot),
        Instr::JpIf(cond) => if s.holds(cond) {
            s.operand16_fault()
        } else {
            None
        },
        Instr::Call => first_of(s.operand16_fault(), s.push_fault()),
        Instr::CallIf(cond) => first_of(
            s.operand16_fault(),
            if s.holds(cond) {
                s.push_fault()
            } else {
                None
            },
        ),
        Instr::Ret | Instr::Reti | Instr::Pop(_) => s.pop_fault(),
        Instr::RetIf(cond) => if s.holds(cond) {
            s.pop_fault()
        } else {
            None
        },
        Instr::Rst(_) | Instr::Push(_) => s.push_fault(),
        _ => None,
    }
}

/// The index of the pending interrupt that is served next, if any: the
/// lowest bit set in both the enable and the flag register, while interrupts
/// are enabled as a whole.
pub open spec fn pending_interrupt(s: CpuState) -> Option<u8> {
    let pending = s.read(IE) & s.read(IF);
    if !s.ime {
        None
    } else if alu::bit(pending, 0) {
        Some(0u8)
    } else if alu::bit(pending, 1) {
        Some(1u8)
    } else if alu::bit(pending, 2) {
        Some(2u8)
    } else if alu::bit(pending, 3) {
        Some(3u8)
    } else if alu::bit(pending, 4) {
        Some(4u8)
    } else {
        None
    }
}

/// The handler address of interrupt `index`.
pub open spec fn vector_of(index: u8) -> u16 {
    (FIRST_VECTOR + 8 * index) as u16
}

/// The state after the check for interrupts that precedes each instruction:
/// unchanged where none is served; else interrupts are disabled, the flag
/// bit of the one served is cleared, the program counter is pushed and the
/// handler is entered.
pub open spec fn dispatched(s: CpuState) -> CpuState {
    match pending_interrupt(s) {
        None => s,
        Some(index) => CpuState { ime: false, ..s }.written(
            IF,
            alu::bit_reset(index, s.read(IF)),
        ).pushed(s.pc).jump(vector_of(index)),
    }
}

/// The fault that the check for interrupts runs into, if any.
pub open spec fn dispatch_fault(s: CpuState) -> Option<Fault> {
    if pending_interrupt(s) is Some {
        s.push_fault()
    } else {
        None
    }
}

/// The byte that goes out on the serial line before the next instruction.
pub open spec fn serial_output(s: CpuState) -> Option<u8> {
    if s.read(SC) == SERIAL_SEND {
        Some(s.read(SB))
    } else {
        None
    }
}

/// The state after the serial line was looked after: a pending send is
/// acknowledged by clearing the control register.
pub open spec fn polled(s: CpuState) -> CpuState {
    if s.read(SC) == SERIAL_SEND {
        s.written(SC, 0)
    } else {
        s
    }
}

/// The state after the instruction with code `code` is performed: the serial
/// line is looked after, then the instruction is executed.
pub open spec fn performed(s: CpuState, code: u8) -> CpuState {
    execute(polled(s), instruction_of(code))
}

/// The fault that performing the instruction with code `code` runs into.
pub open spec fn perform_fault(s: CpuState, code: u8) -> Option<Fault> {
    fault_of(polled(s), instruction_of(code))
}

/// The state after one whole step: interrupts, fetch, serial line,
/// instruction.
pub open spec fn next(s: CpuState) -> CpuState {
    let entered = dispatched(s);
    performed(entered, entered.read(entered.pc))
}

/// The first fault that one whole step runs into, if any.
pub open spec fn next_fault(s: CpuState) -> Option<Fault> {
    let entered = dispatched(s);
    first_of(
        dispatch_fault(s),
        first_of(
            read_fault(entered.memory, entered.pc),
            perform_fault(entered, entered.read(entered.pc)),
        ),
    )
}

/// The state in which one whole step ends: that of `next` where nothing
/// faults, else the state reached when the fault is found. A fault is found
/// before the part of the step that it belongs to changes anything.
pub open spec fn step_end(s: CpuState) -> CpuState {
    let entered = dispatched(s);
    if dispatch_fault(s) is Some {
        s
    } else if read_fault(entered.memory, entered.pc) is Some {
        entered
    } else if perform_fault(entered, entered.read(entered.pc)) is Some {
        polled(entered)
    } else {
        next(s)
    }
}

/// The byte that one whole step sends on the serial line, if any. A step
/// that faults before it looks after the serial line sends nothing.
pub open spec fn step_output(s: CpuState) -> Option<u8> {
    let entered = dispatched(s);
    if dispatch_fault(s) is Some || read_fault(entered.memory, entered.pc) is Some {
        None
    } else {
        serial_output(entered)
    }
}

/// The bytes of an optional byte: one or none.
pub open spec fn bytes_of(byte: Option<u8>) -> Seq<u8> {
    match byte {
        Some(b) => seq![b],
        None => Seq::empty(),
    }
}

/// The state after at most `limit` steps, the first faulting step being the
/// last.
pub open spec fn run_end(s: CpuState, limit: nat) -> CpuState
    decreases limit,
{
    if limit == 0 {
        s
    } else if next_fault(s) is Some {
        step_end(s)
    } else {
        run_end(next(s), (limit - 1) as nat)
    }
}

/// The bytes sent on the serial line in at most `limit` steps, the first
/// faulting step being the last.
pub open spec fn run_output(s: CpuState, limit: nat) -> Seq<u8>
    decreases limit,
{
    if limit == 0 {
        Seq::empty()
    } else if next_fault(s) is Some {
        bytes_of(step_output(s))
    } else {
        bytes_of(step_output(s)) + run_output(next(s), (limit - 1) as nat)
    }
}

/// The fault that ends a run of at most `limit` steps, if one does.
pub open spec fn run_fault(s: CpuState, limit: nat) -> Option<Fault>
    decreases limit,
{
    if limit == 0 {
        None
    } else if next_fault(s) is Some {
        next_fault(s)
    } else {
        run_fault(next(s), (limit - 1) as nat)
    }
}

} // verus!
