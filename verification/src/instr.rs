//! The instruction set: what each code byte stands for.
//!
//! A code byte is read as three fields, `x` (bits 7–6), `y` (bits 5–3) and
//! `z` (bits 2–0); `y` in turn splits into `p` (its upper two bits) and `q`
//! (its lowest bit). The instruction set is defined over those fields. The
//! decoder that runs is a table over all 256 codes, proved to agree with that
//! definition.

use vstd::prelude::*;

verus! {

/// An 8-bit operand: a register, or the memory cell that HL points to.
#[derive(Clone, Copy, Debug, PartialEq, Eq, Structural)]
pub enum Slot {
    B,
    C,
    D,
    E,
    H,
    L,
    /// The byte at the address in HL.
    AtHl,
    A,
}

/// A 16-bit register as named by the load and arithmetic instructions.
#[derive(Clone, Copy, Debug, PartialEq, Eq, Structural)]
pub enum Pair {
    BC,
    DE,
    HL,
    SP,
}

/// A 16-bit register as named by the stack instructions.
#[derive(Clone, Copy, Debug, PartialEq, Eq, Structural)]
pub enum StackPair {
    BC,
    DE,
    HL,
    AF,
}

/// Where an indirect load or store of A finds its address.
#[derive(Clone, Copy, Debug, PartialEq, Eq, Structural)]
pub enum Pointer {
    BC,
    DE,
    /// HL, which is incremented afterwards.
    HlInc,
    /// HL, which is decremented afterwards.
    HlDec,
}

/// The condition of a conditional jump, call or return.
#[derive(Clone, Copy, Debug, PartialEq, Eq, Structural)]
pub enum Cond {
    /// The zero flag is clear.
    NZ,
    /// The zero flag is set.
    Z,
    /// The carry flag is clear.
    NC,
    /// The carry flag is set.
    C,
}

/// An operation of the accumulator with an 8-bit operand.
#[derive(Clone, Copy, Debug, PartialEq, Eq, Structural)]
pub enum AluOp {
    Add,
    Adc,
    Sub,
    Sbc,
    And,
    Xor,
    Or,
    Cp,
}

/// A rotation or shift of an 8-bit operand.
#[derive(Clone, Copy, Debug, PartialEq, Eq, Structural)]
pub enum ShiftOp {
    Rlc,
    Rrc,
    Rl,
    Rr,
    Sla,
    Sra,
    Swap,
    Srl,
}

/// An instruction of the main page.
#[derive(Clone, Copy, Debug, PartialEq, Eq, Structural)]
pub enum Instr {
    Nop,
    Halt,
    /// Disable interrupts.
    Di,
    /// Enable interrupts.
    Ei,
    /// The next byte is an instruction of the bit-operation page.
    Prefix,
    /// Load a register from a register: destination, source.
    Ld(Slot, Slot),
    /// Load a register from the byte that follows.
    LdImm(Slot),
    /// Load a 16-bit register from the two bytes that follow.
    LdPairImm(Pair),
    /// Store SP at the address that follows.
    StoreSp,
    /// Load SP from HL.
    LdSpHl,
    /// Load HL with SP plus the signed byte that follows.
    LdHlSpOffset,
    /// Add the signed byte that follows to SP.
    AddSpOffset,
    /// Store A at the address that the pointer gives.
    StoreAt(Pointer),
    /// Load A from the address that the pointer gives.
    LoadAt(Pointer),
    /// Store A at the address that follows.
    StoreAbs,
    /// Load A from the address that follows.
    LoadAbs,
    /// Store A at 0xFF00 plus the byte that follows.
    StoreHigh,
    /// Load A from 0xFF00 plus the byte that follows.
    LoadHigh,
    /// Store A at 0xFF00 plus C.
    StoreHighC,
    /// Load A from 0xFF00 plus C.
    LoadHighC,
    /// Operate on A with an operand.
    Alu(AluOp, Slot),
    /// Operate on A with the byte that follows.
    AluImm(AluOp),
    Inc(Slot),
    Dec(Slot),
    IncPair(Pair),
    DecPair(Pair),
    /// Add a 16-bit register to HL.
    AddHl(Pair),
    Rlca,
    Rrca,
    Rla,
    Rra,
    Daa,
    Cpl,
    Scf,
    Ccf,
    /// Jump by the signed byte that follows.
    Jr,
    JrIf(Cond),
    /// Jump to the address that follows.
    Jp,
    JpIf(Cond),
    /// Jump to the address in HL.
    JpHl,
    Call,
    CallIf(Cond),
    Ret,
    RetIf(Cond),
    /// Return and enable interrupts.
    Reti,
    /// Call the fixed address given, one of 0x00, 0x08, … 0x38.
    Rst(u8),
    Push(StackPair),
    Pop(StackPair),
    /// A code that stands for no supported instruction.
    Unknown(u8),
}

/// An instruction of the bit-operation page.
#[derive(Clone, Copy, Debug, PartialEq, Eq, Structural)]
pub enum CbInstr {
    Shift(ShiftOp, Slot),
    /// Test the bit of the given number, 0 to 7.
    TestBit(u8, Slot),
    /// Clear the bit of the given number.
    ResetBit(u8, Slot),
    /// Set the bit of the given number.
    SetBit(u8, Slot),
}

impl Instr {
    /// Whether the instruction moves data between registers, memory and the
    /// stack without computing.
    pub open spec fn is_transfer(self) -> bool {
        match self {
            Instr::Ld(_, _)
            | Instr::LdImm(_)
            | Instr::LdPairImm(_)
            | Instr::StoreSp
            | Instr::LdSpHl
            | Instr::StoreAt(_)
            | Instr::LoadAt(_)
            | Instr::StoreAbs
            | Instr::LoadAbs
            | Instr::StoreHigh
            | Instr::LoadHigh
            | Instr::StoreHighC
            | Instr::LoadHighC
            | Instr::Push(_)
            | Instr::Pop(_) => true,
            _ => false,
        }
    }

    /// Whether the instruction computes: arithmetic, logic, rotations and
    /// the operations on the flags.
    pub open spec fn is_computation(self) -> bool {
        match self {
            Instr::Alu(_, _)
            | Instr::AluImm(_)
            | Instr::Inc(_)
            | Instr::Dec(_)
            | Instr::IncPair(_)
            | Instr::DecPair(_)
            | Instr::AddHl(_)
            | Instr::AddSpOffset
            | Instr::LdHlSpOffset
            | Instr::Rlca
            | Instr::Rrca
            | Instr::Rla
            | Instr::Rra
            | Instr::Daa
            | Instr::Cpl
            | Instr::Scf
            | Instr::Ccf => true,
            _ => false,
        }
    }

    /// Whether the instruction is one of control: jumps, calls, returns, the
    /// interrupt switch, the prefix and the instruction that does nothing.
    pub open spec fn is_control(self) -> bool {
        match self {
            Instr::Nop
            | Instr::Di
            | Instr::Ei
            | Instr::Prefix
            | Instr::Jr
            | Instr::JrIf(_)
            | Instr::Jp
            | Instr::JpIf(_)
            | Instr::JpHl
            | Instr::Call
            | Instr::CallIf(_)
            | Instr::Ret
            | Instr::RetIf(_)
            | Instr::Reti
            | Instr::Rst(_) => true,
            _ => false,
        }
    }
}

impl CbInstr {
    /// Whether the bit number, where there is one, is one of 0 to 7.
    pub open spec fn well_formed(self) -> bool {
        match self {
            CbInstr::Shift(_, _) => true,
            CbInstr::TestBit(n, _) | CbInstr::ResetBit(n, _) | CbInstr::SetBit(n, _) => n < 8,
        }
    }
}

/// The operand that a three-bit field names.
pub open spec fn slot_of(field: int) -> Slot {
    if field == 0 {
        Slot::B
    } else if field == 1 {
        Slot::C
    } else if field == 2 {
        Slot::D
    } else if field == 3 {
        Slot::E
    } else if field == 4 {
        Slot::H
    } else if field == 5 {
        Slot::L
    } else if field == 6 {
        Slot::AtHl
    } else {
        Slot::A
    }
}

/// The 16-bit register that a two-bit field names in loads and arithmetic.
pub open spec fn pair_of(field: int) -> Pair {
    if field == 0 {
        Pair::BC
    } else if field == 1 {
        Pair::DE
    } else if field == 2 {
        Pair::HL
    } else {
        Pair::SP
    }
}

/// The 16-bit register that a two-bit field names in stack instructions.
pub open spec fn stack_pair_of(field: int) -> StackPair {
    if field == 0 {
        StackPair::BC
    } else if field == 1 {
        StackPair::DE
    } else if field == 2 {
        StackPair::HL
    } else {
        StackPair::AF
    }
}

/// The pointer that a two-bit field names in indirect loads and stores.
pub open spec fn pointer_of(field: int) -> Pointer {
    if field == 0 {
        Pointer::BC
    } else if field == 1 {
        Pointer::DE
    } else if field == 2 {
        Pointer::HlInc
    } else {
        Pointer::HlDec
    }
}

/// The condition that a two-bit field names.
pub open spec fn cond_of(field: int) -> Cond {
    if field == 0 {
        Cond::NZ
    } else if field == 1 {
        Cond::Z
    } else if field == 2 {
        Cond::NC
    } else {
        Cond::C
    }
}

/// The accumulator operation that a three-bit field names.
pub open spec fn alu_op_of(field: int) -> AluOp {
    if field == 0 {
        AluOp::Add
    } else if field == 1 {
        AluOp::Adc
    } else if field == 2 {
        AluOp::Sub
    } else if field == 3 {
        AluOp::Sbc
    } else if field == 4 {
        AluOp::And
    } else if field == 5 {
        AluOp::Xor
    } else if field == 6 {
        AluOp::Or
    } else {
        AluOp::Cp
    }
}

/// The rotation or shift that a three-bit field names.
pub open spec fn shift_op_of(field: int) -> ShiftOp {
    if field == 0 {
        ShiftOp::Rlc
    } else if field == 1 {
        ShiftOp::Rrc
    } else if field == 2 {
        ShiftOp::Rl
    } else if field == 3 {
        ShiftOp::Rr
    } else if field == 4 {
        ShiftOp::Sla
    } else if field == 5 {
        ShiftOp::Sra
    } else if field == 6 {
        ShiftOp::Swap
    } else {
        ShiftOp::Srl
    }
}

/// The instructions with `x` = 0: loads of constants, 16-bit arithmetic,
/// increments, relative jumps and the operations on A alone.
pub open spec fn instruction_of_low(code: u8, y: int, z: int) -> Instr {
    let p = y / 2;
    let q = y % 2;
    if z == 0 {
        if y == 0 {
            Instr::Nop
        } else if y == 1 {
            Instr::StoreSp
        } else if y == 2 {
            Instr::Unknown(code)
        } else if y == 3 {
            Instr::Jr
        } else {
            Instr::JrIf(cond_of(y - 4))
        }
    } else if z == 1 {
        if q == 0 {
            Instr::LdPairImm(pair_of(p))
        } else {
            Instr::AddHl(pair_of(p))
        }
    } else if z == 2 {
        if q == 0 {
            Instr::StoreAt(pointer_of(p))
        } else {
            Instr::LoadAt(pointer_of(p))
        }
    } else if z == 3 {
        if q == 0 {
            Instr::IncPair(pair_of(p))
        } else {
            Instr::DecPair(pair_of(p))
        }
    } else if z == 4 {
        Instr::Inc(slot_of(y))
    } else if z == 5 {
        Instr::Dec(slot_of(y))
    } else if z == 6 {
        Instr::LdImm(slot_of(y))
    } else if y == 0 {
        Instr::Rlca
    } else if y == 1 {
        Instr::Rrca
    } else if y == 2 {
        Instr::Rla
    } else if y == 3 {
        Instr::Rra
    } else if y == 4 {
        Instr::Daa
    } else if y == 5 {
        Instr::Cpl
    } else if y == 6 {
        Instr::Scf
    } else {
        Instr::Ccf
    }
}

/// The instructions with `x` = 3: control flow, the stack, operations with a
/// constant and the loads by address.
pub open spec fn instruction_of_high(code: u8, y: int, z: int) -> Instr {
    let p = y / 2;
    let q = y % 2;
    if z == 0 {
        if y < 4 {
            Instr::RetIf(cond_of(y))
        } else if y == 4 {
            Instr::StoreHigh
        } else if y == 5 {
            Instr::AddSpOffset
        } else if y == 6 {
            Instr::LoadHigh
        } else {
            Instr::LdHlSpOffset
        }
    } else if z == 1 {
        if q == 0 {
            Instr::Pop(stack_pair_of(p))
        } else if p == 0 {
            Instr::Ret
        } else if p == 1 {
            Instr::Reti
        } else if p == 2 {
            Instr::JpHl
        } else {
            Instr::LdSpHl
        }
    } else if z == 2 {
        if y < 4 {
            Instr::JpIf(cond_of(y))
        } else if y == 4 {
            Instr::StoreHighC
        } else if y == 5 {
            Instr::StoreAbs
        } else if y == 6 {
            Instr::LoadHighC
        } else {
            Instr::LoadAbs
        }
    } else if z == 3 {
        if y == 0 {
            Instr::Jp
        } else if y == 1 {
            Instr::Prefix
        } else if y == 6 {
            Instr::Di
        } else if y == 7 {
            Instr::Ei
        } else {
            Instr::Unknown(code)
        }
    } else if z == 4 {
        if y < 4 {
            Instr::CallIf(cond_of(y))
        } else {
            Instr::Unknown(code)
        }
    } else if z == 5 {
        if q == 0 {
            Instr::Push(stack_pair_of(p))
        } else if p == 0 {
            Instr::Call
        } else {
            Instr::Unknown(code)
        }
    } else if z == 6 {
        Instr::AluImm(alu_op_of(y))
    } else {
        Instr::Rst((y * 8) as u8)
    }
}

/// The instruction that a code byte of the main page stands for.
pub open spec fn instruction_of(code: u8) -> Instr {
    let x = code as int / 64;
    let y = (code as int / 8) % 8;
    let z = code as int % 8;
    if x == 0 {
        instruction_of_low(code, y, z)
    } else if x == 1 {
        if y == 6 && z == 6 {
            Instr::Halt
        } else {
            Instr::Ld(slot_of(y), slot_of(z))
        }
    } else if x == 2 {
        Instr::Alu(alu_op_of(y), slot_of(z))
    } else {
        instruction_of_high(code, y, z)
    }
}

/// The instruction that a code byte of the bit-operation page stands for:
/// eight rotations and shifts, then bit test, clear and set for each of the
/// eight bits, each on the eight operands.
pub open spec fn cb_instruction_of(code: u8) -> CbInstr {
    let x = code as int / 64;
    let y = (code as int / 8) % 8;
    let z = code as int % 8;
    if x == 0 {
        CbInstr::Shift(shift_op_of(y), slot_of(z))
    } else if x == 1 {
        CbInstr::TestBit(y as u8, slot_of(z))
    } else if x == 2 {
        CbInstr::ResetBit(y as u8, slot_of(z))
    } else {
        CbInstr::SetBit(y as u8, slot_of(z))
    }
}

/// The number of bytes that an instruction takes, its code and the bytes
/// that follow it. Zero for what cannot be executed.
pub open spec fn length_of(instr: Instr) -> int {
    match instr {
        Instr::Halt | Instr::Unknown(_) => 0,
        Instr::Prefix
        | Instr::LdImm(_)
        | Instr::LdHlSpOffset
        | Instr::AddSpOffset
        | Instr::StoreHigh
        | Instr::LoadHigh
        | Instr::AluImm(_)
        | Instr::Jr
        | Instr::JrIf(_) => 2,
        Instr::LdPairImm(_)
        | Instr::StoreSp
        | Instr::StoreAbs
        | Instr::LoadAbs
        | Instr::Jp
        | Instr::JpIf(_)
        | Instr::Call
        | Instr::CallIf(_) => 3,
        _ => 1,
    }
}

/// The operand for field value `field`, 0 to 7.
pub fn slot(field: u8) -> (slot: Slot)
    requires
        field < 8,
    ensures
        slot == slot_of(field as int),
{
    match field {
        0 => Slot::B,
        1 => Slot::C,
        2 => Slot::D,
        3 => Slot::E,
        4 => Slot::H,
        5 => Slot::L,
        6 => Slot::AtHl,
        _ => Slot::A,
    }
}

/// The accumulator operation for field value `field`, 0 to 7.
pub fn alu_op(field: u8) -> (op: AluOp)
    requires
        field < 8,
    ensures
        op == alu_op_of(field as int),
{
    match field {
        0 => AluOp::Add,
        1 => AluOp::Adc,
        2 => AluOp::Sub,
        3 => AluOp::Sbc,
        4 => AluOp::And,
        5 => AluOp::Xor,
        6 => AluOp::Or,
        _ => AluOp::Cp,
    }
}

/// The rotation or shift for field value `field`, 0 to 7.
pub fn shift_op(field: u8) -> (op: ShiftOp)
    requires
        field < 8,
    ensures
        op == shift_op_of(field as int),
{
    match field {
        0 => ShiftOp::Rlc,
        1 => ShiftOp::Rrc,
        2 => ShiftOp::Rl,
        3 => ShiftOp::Rr,
        4 => ShiftOp::Sla,
        5 => ShiftOp::Sra,
        6 => ShiftOp::Swap,
        _ => ShiftOp::Srl,
    }
}

/// Decodes a code byte of the main page.
pub fn decode(code: u8) -> (instr: Instr)
    ensures
        instr == instruction_of(code),
{
    match code {
        0x00 => Instr::Nop,
        0x01 => Instr::LdPairImm(Pair::BC),
        0x02 => Instr::StoreAt(Pointer::BC),
        0x03 => Instr::IncPair(Pair::BC),
        0x04 => Instr::Inc(Slot::B),
        0x05 => Instr::Dec(Slot::B),
        0x06 => Instr::LdImm(Slot::B),
        0x07 => Instr::Rlca,
        0x08 => Instr::StoreSp,
        0x09 => Instr::AddHl(Pair::BC),
        0x0A => Instr::LoadAt(Pointer::BC),
        0x0B => Instr::DecPair(Pair::BC),
        0x0C => Instr::Inc(Slot::C),
        0x0D => Instr::Dec(Slot::C),
        0x0E => Instr::LdImm(Slot::C),
        0x0F => Instr::Rrca,
        0x11 => Instr::LdPairImm(Pair::DE),
        0x12 => Instr::StoreAt(Pointer::DE),
        0x13 => Instr::IncPair(Pair::DE),
        0x14 => Instr::Inc(Slot::D),
        0x15 => Instr::Dec(Slot::D),
        0x16 => Instr::LdImm(Slot::D),
        0x17 => Instr::Rla,
        0x18 => Instr::Jr,
        0x19 => Instr::AddHl(Pair::DE),
        0x1A => Instr::LoadAt(Pointer::DE),
        0x1B => Instr::DecPair(Pair::DE),
        0x1C => Instr::Inc(Slot::E),
        0x1D => Instr::Dec(Slot::E),
        0x1E => Instr::LdImm(Slot::E),
        0x1F => Instr::Rra,
        0x20 => Instr::JrIf(Cond::NZ),
        0x21 => Instr::LdPairImm(Pair::HL),
        0x22 => Instr::StoreAt(Pointer::HlInc),
        0x23 => Instr::IncPair(Pair::HL),
        0x24 => Instr::Inc(Slot::H),
        0x25 => Instr::Dec(Slot::H),
        0x26 => Instr::LdImm(Slot::H),
        0x27 => Instr::Daa,
        0x28 => Instr::JrIf(Cond::Z),
        0x29 => Instr::AddHl(Pair::HL),
        0x2A => Instr::LoadAt(Pointer::HlInc),
        0x2B => Instr::DecPair(Pair::HL),
        0x2C => Instr::Inc(Slot::L),
        0x2D => Instr::Dec(Slot::L),
        0x2E => Instr::LdImm(Slot::L),
        0x2F => Instr::Cpl,
        0x30 => Instr::JrIf(Cond::NC),
        0x31 => Instr::LdPairImm(Pair::SP),
        0x32 => Instr::StoreAt(Pointer::HlDec),
        0x33 => Instr::IncPair(Pair::SP),
        0x34 => Instr::Inc(Slot::AtHl),
        0x35 => Instr::Dec(Slot::AtHl),
        0x36 => Instr::LdImm(Slot::AtHl),
        0x37 => Instr::Scf,
        0x38 => Instr::JrIf(Cond::C),
        0x39 => Instr::AddHl(Pair::SP),
        0x3A => Instr::LoadAt(Pointer::HlDec),
        0x3B => Instr::DecPair(Pair::SP),
        0x3C => Instr::Inc(Slot::A),
        0x3D => Instr::Dec(Slot::A),
        0x3E => Instr::LdImm(Slot::A),
        0x3F => Instr::Ccf,
        0x76 => Instr::Halt,
        0x40..=0x7F => Instr::Ld(slot((code - 0x40) / 8), slot(code % 8)),
        0x80..=0xBF => Instr::Alu(alu_op((code - 0x80) / 8), slot(code % 8)),
        0xC0 => Instr::RetIf(Cond::NZ),
        0xC1 => Instr::Pop(StackPair::BC),
        0xC2 => Instr::JpIf(Cond::NZ),
        0xC3 => Instr::Jp,
        0xC4 => Instr::CallIf(Cond::NZ),
        0xC5 => Instr::Push(StackPair::BC),
        0xC6 => Instr::AluImm(AluOp::Add),
        0xC7 => Instr::Rst(0x00),
        0xC8 => Instr::RetIf(Cond::Z),
        0xC9 => Instr::Ret,
        0xCA => Instr::JpIf(Cond::Z),
        0xCB => Instr::Prefix,
        0xCC => Instr::CallIf(Cond::Z),
        0xCD => Instr::Call,
        0xCE => Instr::AluImm(AluOp::Adc),
        0xCF => Instr::Rst(0x08),
        0xD0 => Instr::RetIf(Cond::NC),
        0xD1 => Instr::Pop(StackPair::DE),
        0xD2 => Instr::JpIf(Cond::NC),
        0xD4 => Instr::CallIf(Cond::NC),
        0xD5 => Instr::Push(StackPair::DE),
        0xD6 => Instr::AluImm(AluOp::Sub),
        0xD7 => Instr::Rst(0x10),
        0xD8 => Instr::RetIf(Cond::C),
        0xD9 => Instr::Reti,
        0xDA => Instr::JpIf(Cond::C),
        0xDC => Instr::CallIf(Cond::C),
        0xDE => Instr::AluImm(AluOp::Sbc),
        0xDF => Instr::Rst(0x18),
        0xE0 => Instr::StoreHigh,
        0xE1 => Instr::Pop(StackPair::HL),
        0xE2 => Instr::StoreHighC,
        0xE5 => Instr::Push(StackPair::HL),
        0xE6 => Instr::AluImm(AluOp::And),
        0xE7 => Instr::Rst(0x20),
        0xE8 => Instr::AddSpOffset,
        0xE9 => Instr::JpHl,
        0xEA => Instr::StoreAbs,
        0xEE => Instr::AluImm(AluOp::Xor),
        0xEF => Instr::Rst(0x28),
        0xF0 => Instr::LoadHigh,
        0xF1 => Instr::Pop(StackPair::AF),
        0xF2 => Instr::LoadHighC,
        0xF3 => Instr::Di,
        0xF5 => Instr::Push(StackPair::AF),
        0xF6 => Instr::AluImm(AluOp::Or),
        0xF7 => Instr::Rst(0x30),
        0xF8 => Instr::LdHlSpOffset,
        0xF9 => Instr::LdSpHl,
        0xFA => Instr::LoadAbs,
        0xFB => Instr::Ei,
        0xFE => Instr::AluImm(AluOp::Cp),
        0xFF => Instr::Rst(0x38),
        _ => Instr::Unknown(code),
    }
}

/// Decodes a code byte of the bit-operation page.
pub fn decode_cb(code: u8) -> (instr: CbInstr)
    ensures
        instr == cb_instruction_of(code),
        instr.well_formed(),
{
    let operand = slot(code % 8);
    let y = (code / 8) % 8;
    match code / 64 {
        0 => CbInstr::Shift(shift_op(y), operand),
        1 => CbInstr::TestBit(y, operand),
        2 => CbInstr::ResetBit(y, operand),
        _ => CbInstr::SetBit(y, operand),
    }
}

} // verus!
