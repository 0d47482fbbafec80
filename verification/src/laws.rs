//! Laws of the machine: what holds of every operand and every state.

use crate::alu;
use crate::alu::{wrap16, Outcome};
use crate::bus::{IE, IF};
use crate::flags::{flags_byte, flags_of, lemma_flags_of_flags_byte, lemma_masked_is_flags_byte, Flags};
use crate::instr::{instruction_of, length_of, AluOp, Cond, Instr, Slot};
use crate::state::{
    dispatch_fault, dispatched, execute, high_byte, low_byte, pending_interrupt, word, CpuState,
};
use vstd::prelude::*;

verus! {

/// After an 8-bit addition the carry flag is set exactly where the sum does
/// not fit in a byte, the half-carry flag exactly where the sum of the low
/// nibbles does not fit in a nibble, and the zero flag exactly where the low
/// byte of the sum is zero.
pub proof fn law_add8_flags(a: u8, b: u8)
    ensures
        alu::add8(a, b).flags.c <==> a + b >= 256,
        alu::add8(a, b).flags.h <==> (a & 0xF) + (b & 0xF) >= 16,
        alu::add8(a, b).flags.z <==> ((a + b) as u16) & 0xFF == 0,
        !alu::add8(a, b).flags.n,
{
    assert(a & 0xF == a % 16) by (bit_vector);
    assert(b & 0xF == b % 16) by (bit_vector);
    let sum = (a + b) as u16;
    assert(sum & 0xFF == sum % 0x100) by (bit_vector);
}

/// After an 8-bit subtraction the carry flag is set exactly where the first
/// operand is below the second, and the half-carry flag exactly where its low
/// nibble is below that of the second.
pub proof fn law_sub8_flags(a: u8, b: u8)
    ensures
        alu::sub8(a, b).flags.c <==> a < b,
        alu::sub8(a, b).flags.h <==> (a & 0xF) < (b & 0xF),
        alu::sub8(a, b).flags.z <==> a == b,
        alu::sub8(a, b).flags.n,
{
    assert(a & 0xF == a % 16) by (bit_vector);
    assert(b & 0xF == b % 16) by (bit_vector);
}

/// A value combined with itself by exclusive or gives zero, with the zero
/// flag set and the three others clear.
pub proof fn law_xor_self(a: u8)
    ensures
        alu::xor8(a, a) == (Outcome {
            value: 0,
            flags: Flags { z: true, n: false, h: false, c: false },
        }),
{
    assert(a ^ a == 0) by (bit_vector);
}

/// The instruction that combines A with itself by exclusive or leaves zero
/// in A, the zero flag set and the three others clear, whatever A held.
pub proof fn law_xor_a_a(s: CpuState)
    ensures
        execute(s, Instr::Alu(AluOp::Xor, Slot::A)).a == 0,
        execute(s, Instr::Alu(AluOp::Xor, Slot::A)).flags == (Flags {
            z: true,
            n: false,
            h: false,
            c: false,
        }),
{
    reveal(execute);
    law_xor_self(s.a);
}

/// The complement instruction turns every bit of A, sets the subtract and
/// half-carry flags and leaves the zero and carry flags as they were.
pub proof fn law_cpl(s: CpuState)
    ensures
        execute(s, Instr::Cpl).a == !s.a,
        execute(s, Instr::Cpl).flags == (Flags { z: s.flags.z, n: true, h: true, c: s.flags.c }),
{
    reveal(execute);
}

/// A word written to BC, DE or HL reads back as written; the high register
/// of the pair holds its upper eight bits and the low register its lower
/// eight.
pub proof fn law_pair_aliasing(s: CpuState, value: u16)
    ensures
        s.with_bc(value).bc() == value,
        s.with_bc(value).b == (value >> 8) & 0xFF,
        s.with_bc(value).c == value & 0xFF,
        s.with_de(value).de() == value,
        s.with_de(value).d == (value >> 8) & 0xFF,
        s.with_de(value).e == value & 0xFF,
        s.with_hl(value).hl() == value,
        s.with_hl(value).h == (value >> 8) & 0xFF,
        s.with_hl(value).l == value & 0xFF,
{
    assert((value >> 8) & 0xFF == value / 0x100) by (bit_vector);
    assert(value & 0xFF == value % 0x100) by (bit_vector);
}

/// A word written to AF reads back with its low nibble zero; A holds its
/// upper eight bits, and the flag register its lower eight without that
/// nibble.
pub proof fn law_af_aliasing(s: CpuState, value: u16)
    ensures
        s.with_af(value).af() == value & 0xFFF0,
        s.with_af(value).a == (value >> 8) & 0xFF,
        s.with_af(value).f() == value & 0xF0,
{
    let low = low_byte(value);
    lemma_masked_is_flags_byte(low);
    assert((value >> 8) & 0xFF == value / 0x100) by (bit_vector);
    let masked = low & 0xF0;
    assert(masked as u16 == value & 0xF0 && (value / 0x100) * 0x100 + masked == value & 0xFFF0)
        by (bit_vector)
        requires
            low == value % 0x100,
            masked == low & 0xF0,
    ;
}

/// Writing one register of a pair changes that half of the pair and leaves
/// the other.
pub proof fn law_half_aliasing(s: CpuState, value: u8)
    ensures
        s.with_reg(Slot::B, value).bc() == word(value, s.c),
        s.with_reg(Slot::C, value).bc() == word(s.b, value),
        s.with_reg(Slot::D, value).de() == word(value, s.e),
        s.with_reg(Slot::E, value).de() == word(s.d, value),
        s.with_reg(Slot::H, value).hl() == word(value, s.l),
        s.with_reg(Slot::L, value).hl() == word(s.h, value),
        high_byte(word(value, s.c)) == value,
        low_byte(word(s.b, value)) == value,
{
}

/// The flag register of any state has a zero low nibble and holds the four
/// flags in its upper nibble.
pub proof fn law_flag_register(s: CpuState)
    ensures
        s.f() & 0x0F == 0,
        flags_of(s.f()) == s.flags,
{
    lemma_flags_of_flags_byte(s.flags);
}

/// A word that was pushed is the word on top of the stack, and taking it off
/// brings the stack pointer back to where it was.
pub proof fn law_push_pop(s: CpuState, value: u16)
    ensures
        s.pushed(value).top() == value,
        s.pushed(value).dropped().sp == s.sp,
        s.pushed(value).sp == wrap16(s.sp - 2),
{
    let low = wrap16(s.sp - 2);
    let high = wrap16(s.sp - 1);
    assert(wrap16(low + 1) == high);
    assert(low != high);
}

/// The push instruction followed by the pop instruction for the same pair
/// brings back the pair and the stack pointer. For AF the low nibble was
/// zero already.
pub proof fn law_push_then_pop(s: CpuState, pair: crate::instr::StackPair)
    ensures
        execute(execute(s, Instr::Push(pair)), Instr::Pop(pair)).stack_pair(pair) == s.stack_pair(
            pair,
        ),
        execute(execute(s, Instr::Push(pair)), Instr::Pop(pair)).sp == s.sp,
        execute(execute(s, Instr::Push(pair)), Instr::Pop(pair)).pc == s.ahead(2),
{
    reveal(execute);
    let value = s.stack_pair(pair);
    law_push_pop(s, value);
    let pushed = execute(s, Instr::Push(pair));
    assert(pushed.top() == value);
    law_flag_register(s);
    lemma_flags_of_flags_byte(s.flags);
}

/// The negation of an offset byte in two's complement.
pub open spec fn negated(offset: u8) -> u8 {
    alu::wrap8(-alu::signed(offset))
}

/// Where a relative jump at `pc` with the given offset byte lands.
pub open spec fn jr_target(pc: u16, offset: u8) -> u16 {
    wrap16(wrap16(pc + 2) + alu::signed(offset))
}

/// The relative jump instruction lands at the address after the instruction
/// plus the signed offset.
pub proof fn law_jr_target(s: CpuState)
    ensures
        execute(s, Instr::Jr).pc == jr_target(s.pc, s.operand8()),
        jr_target(s.pc, s.operand8()) == wrap16(s.pc + 2 + alu::signed(s.operand8())),
{
    reveal(execute);
}

/// A relative jump followed, where it lands, by one with the negated offset:
/// the offsets cancel and what is left is the length of the two
/// instructions. The offset -128 has no negation in a byte and is left out.
pub proof fn law_jr_there_and_back(pc: u16, offset: u8)
    requires
        offset != 0x80,
    ensures
        jr_target(jr_target(pc, offset), negated(offset)) == wrap16(pc + 4),
{
    let there = jr_target(pc, offset);
    let e = alu::signed(offset);
    assert(alu::signed(negated(offset)) == -e);
    assert(there as int == wrap16(pc + 2 + e));
    let landed: int = pc + 2 + e;
    assert(there == landed || there == landed - 0x1_0000 || there == landed + 0x1_0000);
}

/// A conditional instruction whose condition fails does nothing but move the
/// program counter past itself.
pub proof fn law_condition_fails(s: CpuState, cond: Cond)
    requires
        !s.holds(cond),
    ensures
        execute(s, Instr::JrIf(cond)) == s.skip(2),
        execute(s, Instr::JpIf(cond)) == s.skip(3),
        execute(s, Instr::CallIf(cond)) == s.skip(3),
        execute(s, Instr::RetIf(cond)) == s.skip(1),
{
    reveal(execute);
}

/// An instruction that is not one of control moves the program counter on by
/// its length: one byte for the code and one for each byte of operand.
pub proof fn law_pc_advances(s: CpuState, instr: Instr)
    requires
        instr.is_transfer() || instr.is_computation() || instr is Nop || instr is Di || instr is Ei
            || instr is Prefix,
    ensures
        execute(s, instr).pc == s.ahead(length_of(instr)),
{
    reveal(execute);
}

/// The codes that stand for no supported instruction are the twelve listed,
/// and no others.
pub proof fn law_unknown_codes(code: u8)
    ensures
        instruction_of(code) is Unknown <==> (code == 0x10 || code == 0xD3 || code == 0xDB || code
            == 0xDD || code == 0xE3 || code == 0xE4 || code == 0xEB || code == 0xEC || code == 0xED
            || code == 0xF4 || code == 0xFC || code == 0xFD),
        instruction_of(code) is Unknown ==> instruction_of(code) == Instr::Unknown(code),
        instruction_of(code) is Halt <==> code == 0x76,
{
}

/// With interrupts enabled and the interrupt of highest priority both
/// enabled and pending, the check for interrupts disables interrupts, clears
/// that interrupt's pending bit, leaves the old program counter on top of
/// the stack and enters the handler at 0x0040.
pub proof fn law_first_interrupt(s: CpuState)
    requires
        s.ime,
        alu::bit(s.read(IE), 0),
        alu::bit(s.read(IF), 0),
        dispatch_fault(s) is None,
    ensures
        pending_interrupt(s) == Some(0u8),
        dispatched(s).pc == 0x0040,
        !dispatched(s).ime,
        dispatched(s).sp == wrap16(s.sp - 2),
        dispatched(s).top() == s.pc,
        wrap16(s.sp - 1) != IF && wrap16(s.sp - 2) != IF ==> dispatched(s).read(IF) == alu::bit_reset(
            0,
            s.read(IF),
        ),
        !alu::bit(alu::bit_reset(0, s.read(IF)), 0),
{
    let ie = s.read(IE);
    let iflag = s.read(IF);
    assert(alu::bit(ie & iflag, 0) && !alu::bit(alu::bit_reset(0, iflag), 0)) by (bit_vector)
        requires
            alu::bit(ie, 0),
            alu::bit(iflag, 0),
    ;
    let cleared = CpuState { ime: false, ..s }.written(IF, alu::bit_reset(0, iflag));
    law_push_pop(cleared, s.pc);
}

/// Without the master enable, or with no interrupt both enabled and pending,
/// the check for interrupts changes nothing.
pub proof fn law_no_interrupt(s: CpuState)
    requires
        !s.ime || s.read(IE) & s.read(IF) & 0x1F == 0,
    ensures
        dispatched(s) == s,
        dispatch_fault(s) is None,
{
    let pending = s.read(IE) & s.read(IF);
    assert(pending & 0x1F == 0 ==> !alu::bit(pending, 0) && !alu::bit(pending, 1) && !alu::bit(
        pending,
        2,
    ) && !alu::bit(pending, 3) && !alu::bit(pending, 4)) by (bit_vector);
}

} // verus!
