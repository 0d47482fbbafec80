//! What the arithmetic unit computes: for each operation, the result and the
//! flags that it leaves, as functions of the operands.

use crate::bits::{
    bit_at, rotated_left, rotated_right, shifted_left, shifted_right, with_bit, with_swapped,
};
use crate::flags::Flags;
use vstd::prelude::*;

verus! {

/// The outcome of an 8-bit operation.
pub struct Outcome {
    /// The result.
    pub value: u8,
    /// The flags after the operation.
    pub flags: Flags,
}

/// The outcome of a 16-bit operation.
pub struct WideOutcome {
    /// The result.
    pub value: u16,
    /// The flags after the operation.
    pub flags: Flags,
}

/// Bit `n` of `value`, counted from the least significant bit.
pub open spec fn bit(value: u8, n: u8) -> bool {
    bit_at(value, (7 - n) as usize)
}

/// `x` reduced to a byte.
pub open spec fn wrap8(x: int) -> u8 {
    (x % 0x100) as u8
}

/// `x` reduced to a 16-bit word.
pub open spec fn wrap16(x: int) -> u16 {
    (x % 0x1_0000) as u16
}

/// The value of an offset byte read as a signed number in two's complement.
pub open spec fn signed(offset: u8) -> int {
    if offset < 0x80 {
        offset as int
    } else {
        offset - 0x100
    }
}

/// `a + b`.
pub open spec fn add8(a: u8, b: u8) -> Outcome {
    let value = wrap8(a + b);
    Outcome {
        value,
        flags: Flags { z: value == 0, n: false, h: a % 16 + b % 16 > 0xF, c: a + b > 0xFF },
    }
}

/// `a + b + carry`.
pub open spec fn adc8(a: u8, b: u8, carry: bool) -> Outcome {
    let cin: int = if carry { 1 } else { 0 };
    let value = wrap8(a + b + cin);
    Outcome {
        value,
        flags: Flags {
            z: value == 0,
            n: false,
            h: a % 16 + b % 16 + cin > 0xF,
            c: a + b + cin > 0xFF,
        },
    }
}

/// `a - b`.
pub open spec fn sub8(a: u8, b: u8) -> Outcome {
    let value = wrap8(a - b);
    Outcome { value, flags: Flags { z: value == 0, n: true, h: a % 16 < b % 16, c: a < b } }
}

/// `a - b - carry`.
pub open spec fn sbc8(a: u8, b: u8, carry: bool) -> Outcome {
    let cin: int = if carry { 1 } else { 0 };
    let value = wrap8(a - b - cin);
    Outcome {
        value,
        flags: Flags { z: value == 0, n: true, h: a % 16 < b % 16 + cin, c: a < b + cin },
    }
}

/// `a & b`.
pub open spec fn and8(a: u8, b: u8) -> Outcome {
    let value = a & b;
    Outcome { value, flags: Flags { z: value == 0, n: false, h: true, c: false } }
}

/// `a | b`.
pub open spec fn or8(a: u8, b: u8) -> Outcome {
    let value = a | b;
    Outcome { value, flags: Flags { z: value == 0, n: false, h: false, c: false } }
}

/// `a ^ b`.
pub open spec fn xor8(a: u8, b: u8) -> Outcome {
    let value = a ^ b;
    Outcome { value, flags: Flags { z: value == 0, n: false, h: false, c: false } }
}

/// The flags of comparing `a` with `b`: those of `a - b`.
pub open spec fn cp8(a: u8, b: u8) -> Flags {
    sub8(a, b).flags
}

/// `value + 1`; the carry flag stays.
pub open spec fn inc8(value: u8, flags: Flags) -> Outcome {
    let result = wrap8(value + 1);
    Outcome {
        value: result,
        flags: Flags { z: result == 0, n: false, h: value % 16 + 1 > 0xF, c: flags.c },
    }
}

/// `value - 1`; the carry flag stays.
pub open spec fn dec8(value: u8, flags: Flags) -> Outcome {
    let result = wrap8(value - 1);
    Outcome {
        value: result,
        flags: Flags { z: result == 0, n: true, h: value % 16 == 0, c: flags.c },
    }
}

/// `a + b` on 16 bits; the zero flag stays, the half carry is the carry out
/// of bit 11.
pub open spec fn add16(a: u16, b: u16, flags: Flags) -> WideOutcome {
    WideOutcome {
        value: wrap16(a + b),
        flags: Flags {
            z: flags.z,
            n: false,
            h: a % 0x1000 + b % 0x1000 > 0xFFF,
            c: a + b > 0xFFFF,
        },
    }
}

/// The stack pointer plus a signed offset byte. Half carry and carry are
/// those of adding the offset, as an unsigned byte, to the low byte of `sp`.
pub open spec fn add_sp(sp: u16, offset: u8) -> WideOutcome {
    WideOutcome {
        value: wrap16(sp + signed(offset)),
        flags: Flags {
            z: false,
            n: false,
            h: sp % 16 + offset % 16 > 0xF,
            c: sp % 0x100 + offset > 0xFF,
        },
    }
}

/// Decimal adjustment of `a` after an addition or subtraction of packed
/// decimal digits.
pub open spec fn daa(a: u8, flags: Flags) -> Outcome {
    if !flags.n {
        let high = flags.c || a > 0x99;
        let a1 = if high {
            wrap8(a + 0x60)
        } else {
            a
        };
        let a2 = if flags.h || a1 % 16 > 9 {
            wrap8(a1 + 0x06)
        } else {
            a1
        };
        Outcome { value: a2, flags: Flags { z: a2 == 0, n: false, h: false, c: high } }
    } else {
        let a1 = if flags.c {
            wrap8(a - 0x60)
        } else {
            a
        };
        let a2 = if flags.h {
            wrap8(a1 - 0x06)
        } else {
            a1
        };
        Outcome { value: a2, flags: Flags { z: a2 == 0, n: true, h: false, c: flags.c } }
    }
}

/// The complement of `a`; zero and carry flags stay.
pub open spec fn cpl(a: u8, flags: Flags) -> Outcome {
    Outcome { value: !a, flags: Flags { z: flags.z, n: true, h: true, c: flags.c } }
}

/// The flags after setting the carry flag.
pub open spec fn scf(flags: Flags) -> Flags {
    Flags { z: flags.z, n: false, h: false, c: true }
}

/// The flags after inverting the carry flag.
pub open spec fn ccf(flags: Flags) -> Flags {
    Flags { z: flags.z, n: false, h: false, c: !flags.c }
}

/// The flags of a rotation or shift with result `value` and outgoing bit
/// `carry`.
pub open spec fn shift_flags(value: u8, carry: bool) -> Flags {
    Flags { z: value == 0, n: false, h: false, c: carry }
}

/// The byte with only its least significant bit, which is `bit`.
pub open spec fn low_bit(bit: bool) -> u8 {
    if bit {
        1
    } else {
        0
    }
}

/// Rotate left: bit 7 goes to the carry and to bit 0.
pub open spec fn rlc(value: u8) -> Outcome {
    let result = rotated_left(value);
    Outcome { value: result, flags: shift_flags(result, bit(value, 7)) }
}

/// Rotate right: bit 0 goes to the carry and to bit 7.
pub open spec fn rrc(value: u8) -> Outcome {
    let result = rotated_right(value);
    Outcome { value: result, flags: shift_flags(result, bit(value, 0)) }
}

/// Rotate left through the carry: bit 7 goes to the carry, the old carry to
/// bit 0.
pub open spec fn rl(value: u8, carry: bool) -> Outcome {
    let result = (value << 1) | low_bit(carry);
    Outcome { value: result, flags: shift_flags(result, bit(value, 7)) }
}

/// Rotate right through the carry: bit 0 goes to the carry, the old carry to
/// bit 7.
pub open spec fn rr(value: u8, carry: bool) -> Outcome {
    let result = (value >> 1) | (low_bit(carry) << 7);
    Outcome { value: result, flags: shift_flags(result, bit(value, 0)) }
}

/// Shift left: bit 7 goes to the carry, bit 0 becomes zero.
pub open spec fn sla(value: u8) -> Outcome {
    let result = shifted_left(value);
    Outcome { value: result, flags: shift_flags(result, bit(value, 7)) }
}

/// Arithmetic shift right: bit 0 goes to the carry, bit 7 stays as it is.
pub open spec fn sra(value: u8) -> Outcome {
    let result = (value >> 1) | (value & 0x80);
    Outcome { value: result, flags: shift_flags(result, bit(value, 0)) }
}

/// Logical shift right: bit 0 goes to the carry, bit 7 becomes zero.
pub open spec fn srl(value: u8) -> Outcome {
    let result = shifted_right(value);
    Outcome { value: result, flags: shift_flags(result, bit(value, 0)) }
}

/// The two nibbles exchanged; the carry is cleared.
pub open spec fn swap(value: u8) -> Outcome {
    let result = (value << 4) | (value >> 4);
    Outcome { value: result, flags: shift_flags(result, false) }
}

/// The flags after testing bit `n` of `value`; the carry flag stays.
pub open spec fn bit_test(n: u8, value: u8, flags: Flags) -> Flags {
    Flags { z: !bit(value, n), n: false, h: true, c: flags.c }
}

/// `value` with bit `n` set.
pub open spec fn bit_set(n: u8, value: u8) -> u8 {
    with_bit(value, (7 - n) as usize, true)
}

/// `value` with bit `n` cleared.
pub open spec fn bit_reset(n: u8, value: u8) -> u8 {
    with_bit(value, (7 - n) as usize, false)
}

/// Adding in two steps, first the operand and then the carry, gives the sum
/// with carry; its half carry and carry are set where either step sets them.
pub proof fn lemma_adc_in_two_steps(a: u8, b: u8, carry: bool)
    ensures
        ({
            let first = add8(a, b);
            let second = add8(first.value, low_bit(carry));
            adc8(a, b, carry) == Outcome {
                value: second.value,
                flags: Flags {
                    z: second.flags.z,
                    n: false,
                    h: first.flags.h || second.flags.h,
                    c: first.flags.c || second.flags.c,
                },
            }
        }),
{
    let first = add8(a, b);
    let cin: int = if carry { 1 } else { 0 };
    assert(first.value as int == if a + b > 0xFF { a + b - 0x100 } else { a + b });
    assert(first.value % 16 == (a % 16 + b % 16) % 16);
}

/// Subtracting in two steps, first the operand and then the carry, gives the
/// difference with carry; its half carry and carry are set where either step
/// sets them.
pub proof fn lemma_sbc_in_two_steps(a: u8, b: u8, carry: bool)
    ensures
        ({
            let first = sub8(a, b);
            let second = sub8(first.value, low_bit(carry));
            sbc8(a, b, carry) == Outcome {
                value: second.value,
                flags: Flags {
                    z: second.flags.z,
                    n: true,
                    h: first.flags.h || second.flags.h,
                    c: first.flags.c || second.flags.c,
                },
            }
        }),
{
    let first = sub8(a, b);
    assert(first.value as int == if a < b { a - b + 0x100 } else { a - b });
    assert(first.value % 16 == (a % 16 - b % 16) % 16);
}

/// Shifting left and writing the carry into the last position is the
/// rotation to the left through the carry.
pub proof fn lemma_rl_by_parts(value: u8, carry: bool)
    by (bit_vector)
    ensures
        with_bit(shifted_left(value), 7, carry) == rl(value, carry).value,
{
}

/// Shifting right and writing the carry into the first position is the
/// rotation to the right through the carry.
pub proof fn lemma_rr_by_parts(value: u8, carry: bool)
    by (bit_vector)
    ensures
        with_bit(shifted_right(value), 0, carry) == rr(value, carry).value,
{
}

/// Shifting right and writing the old first bit back is the arithmetic shift
/// to the right.
pub proof fn lemma_sra_by_parts(value: u8)
    by (bit_vector)
    ensures
        with_bit(shifted_right(value), 0, bit_at(value, 0)) == sra(value).value,
{
}

/// Exchanging each bit of the upper nibble with its counterpart in the lower
/// one exchanges the nibbles.
pub proof fn lemma_swap_by_parts(value: u8)
    by (bit_vector)
    ensures
        with_swapped(with_swapped(with_swapped(with_swapped(value, 0, 4), 1, 5), 2, 6), 3, 7)
            == swap(value).value,
{
}

} // verus!
