//! The four condition flags and how they lie in the flag register.

use crate::bits::bit_at;
use vstd::prelude::*;

verus! {

/// The condition flags.
#[derive(Clone, Copy, Debug, PartialEq, Eq, Structural)]
pub struct Flags {
    /// Zero: the result was zero.
    pub z: bool,
    /// Subtract: the last operation was a subtraction.
    pub n: bool,
    /// Half carry: a carry or borrow between the two nibbles.
    pub h: bool,
    /// Carry: a carry or borrow out of the whole value.
    pub c: bool,
}

/// The flags that a flag-register byte holds: Z, N, H and C in its four most
/// significant bits. The low nibble plays no part.
pub open spec fn flags_of(byte: u8) -> Flags {
    Flags { z: bit_at(byte, 0), n: bit_at(byte, 1), h: bit_at(byte, 2), c: bit_at(byte, 3) }
}

/// The flag-register byte for the given flags; its low nibble is zero.
pub open spec fn flags_byte(flags: Flags) -> u8 {
    ((if flags.z { 0x80int } else { 0 })
        + (if flags.n { 0x40int } else { 0 })
        + (if flags.h { 0x20int } else { 0 })
        + (if flags.c { 0x10int } else { 0 })) as u8
}

/// Masking the low nibble of a flag-register byte gives the byte of its flags.
pub proof fn lemma_masked_is_flags_byte(byte: u8)
    ensures
        byte & 0xF0 == flags_byte(flags_of(byte)),
        flags_of(byte & 0xF0) == flags_of(byte),
{
    let z: u8 = if bit_at(byte, 0) { 0x80 } else { 0 };
    let n: u8 = if bit_at(byte, 1) { 0x40 } else { 0 };
    let h: u8 = if bit_at(byte, 2) { 0x20 } else { 0 };
    let c: u8 = if bit_at(byte, 3) { 0x10 } else { 0 };
    assert(byte & 0xF0 == z + n + h + c && (bit_at(byte & 0xF0, 0) == bit_at(byte, 0)) && (bit_at(
        byte & 0xF0,
        1,
    ) == bit_at(byte, 1)) && (bit_at(byte & 0xF0, 2) == bit_at(byte, 2)) && (bit_at(
        byte & 0xF0,
        3,
    ) == bit_at(byte, 3))) by (bit_vector)
        requires
            z == (if bit_at(byte, 0) { 0x80u8 } else { 0 }),
            n == (if bit_at(byte, 1) { 0x40u8 } else { 0 }),
            h == (if bit_at(byte, 2) { 0x20u8 } else { 0 }),
            c == (if bit_at(byte, 3) { 0x10u8 } else { 0 }),
    ;
}

/// The byte of some flags holds exactly those flags.
pub proof fn lemma_flags_of_flags_byte(flags: Flags)
    ensures
        flags_of(flags_byte(flags)) == flags,
        flags_byte(flags) & 0x0F == 0,
{
    let byte = flags_byte(flags);
    let (z, n, h, c) = (flags.z, flags.n, flags.h, flags.c);
    assert(bit_at(byte, 0) == z && bit_at(byte, 1) == n && bit_at(byte, 2) == h && bit_at(byte, 3)
        == c && byte & 0x0F == 0) by (bit_vector)
        requires
            byte == (if z { 0x80u8 } else { 0 }) + (if n { 0x40u8 } else { 0 }) + (if h {
                0x20u8
            } else {
                0
            }) + (if c { 0x10u8 } else { 0 }),
    ;
}

} // verus!
