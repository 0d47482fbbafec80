//! Single-bit access, rotation and shifting of a byte.
//!
//! The work on the bits is done by the `bitvec` crate, on a byte seen as eight
//! bits counted from the most significant one (`Msb0`): position 0 is the bit
//! of weight 128, position 7 the bit of weight 1. The functions that call it
//! are not verified; each states what it takes the crate to do, and the rest
//! of the library is proved against those statements.

use bitvec::array::BitArray;
use bitvec::order::Msb0;
use vstd::prelude::*;

verus! {

/// The byte whose only set bit is the one at `position`, counted from the most
/// significant bit.
pub open spec fn mask_at(position: usize) -> u8 {
    0x80u8 >> position
}

/// Whether the bit of `value` at `position` is set.
pub open spec fn bit_at(value: u8, position: usize) -> bool {
    value & mask_at(position) != 0
}

/// `value` with the bit at `position` set if `bit` holds and cleared if not.
pub open spec fn with_bit(value: u8, position: usize, bit: bool) -> u8 {
    if bit {
        value | mask_at(position)
    } else {
        value & !mask_at(position)
    }
}

/// `value` with the bits at positions `a` and `b` exchanged.
pub open spec fn with_swapped(value: u8, a: usize, b: usize) -> u8 {
    with_bit(with_bit(value, a, bit_at(value, b)), b, bit_at(value, a))
}

/// Every bit moved one place towards the most significant end; the bit that
/// leaves there comes back in at the least significant end.
pub open spec fn rotated_left(value: u8) -> u8 {
    (value << 1) | (value >> 7)
}

/// Every bit moved one place towards the least significant end; the bit that
/// leaves there comes back in at the most significant end.
pub open spec fn rotated_right(value: u8) -> u8 {
    (value >> 1) | (value << 7)
}

/// Every bit moved one place towards the most significant end; the bit that
/// leaves there is lost and a zero comes in at the other end.
pub open spec fn shifted_left(value: u8) -> u8 {
    value << 1
}

/// Every bit moved one place towards the least significant end; the bit that
/// leaves there is lost and a zero comes in at the other end.
pub open spec fn shifted_right(value: u8) -> u8 {
    value >> 1
}

/// Reads one bit through `bitvec`: indexing a `BitArray<u8, Msb0>` made of
/// `value`. Taken on trust: index `position` of that array is the bit of
/// weight `128 >> position`.
#[verifier::external_body]
pub(crate) fn get_bit(value: u8, position: usize) -> (bit: bool)
    requires
        position < 8,
    ensures
        bit == bit_at(value, position),
{
    let bits = BitArray::<u8, Msb0>::new(value);
    bits[position]
}

/// Writes one bit through `bitvec`: `BitSlice::set` on a `BitArray<u8, Msb0>`
/// made of `value`. Taken on trust: the bit at `position` becomes `bit` and
/// the seven others stay.
#[verifier::external_body]
pub(crate) fn set_bit(value: u8, position: usize, bit: bool) -> (out: u8)
    requires
        position < 8,
    ensures
        out == with_bit(value, position, bit),
{
    let mut bits = BitArray::<u8, Msb0>::new(value);
    bits.set(position, bit);
    bits.into_inner()
}

/// Exchanges two bits through `bitvec`: `BitSlice::swap` on a
/// `BitArray<u8, Msb0>` made of `value`. Taken on trust: the bits at `a` and
/// `b` trade places and the others stay.
#[verifier::external_body]
pub(crate) fn swap_bits(value: u8, a: usize, b: usize) -> (out: u8)
    requires
        a < 8,
        b < 8,
    ensures
        out == with_swapped(value, a, b),
{
    let mut bits = BitArray::<u8, Msb0>::new(value);
    bits.swap(a, b);
    bits.into_inner()
}

/// Rotates through `bitvec`: `BitSlice::rotate_left(1)` on a
/// `BitArray<u8, Msb0>` made of `value`. Taken on trust: each bit moves to the
/// next lower position, which in this order is the next higher weight, and
/// the bit at position 0 goes to position 7.
#[verifier::external_body]
pub(crate) fn rotate_left(value: u8) -> (out: u8)
    ensures
        out == rotated_left(value),
{
    let mut bits = BitArray::<u8, Msb0>::new(value);
    bits.rotate_left(1);
    bits.into_inner()
}

/// Rotates through `bitvec`: `BitSlice::rotate_right(1)` on a
/// `BitArray<u8, Msb0>` made of `value`. Taken on trust: each bit moves to the
/// next higher position, which in this order is the next lower weight, and
/// the bit at position 7 goes to position 0.
#[verifier::external_body]
pub(crate) fn rotate_right(value: u8) -> (out: u8)
    ensures
        out == rotated_right(value),
{
    let mut bits = BitArray::<u8, Msb0>::new(value);
    bits.rotate_right(1);
    bits.into_inner()
}

/// Shifts through `bitvec`: `BitSlice::shift_start(1)` on a
/// `BitArray<u8, Msb0>` made of `value`. Taken on trust: each bit moves to the
/// next lower position, the bit at position 0 is dropped and position 7 is
/// cleared.
#[verifier::external_body]
pub(crate) fn shift_left(value: u8) -> (out: u8)
    ensures
        out == shifted_left(value),
{
    let mut bits = BitArray::<u8, Msb0>::new(value);
    bits.shift_start(1);
    bits.into_inner()
}

/// Shifts through `bitvec`: `BitSlice::shift_end(1)` on a
/// `BitArray<u8, Msb0>` made of `value`. Taken on trust: each bit moves to the
/// next higher position, the bit at position 7 is dropped and position 0 is
/// cleared.
#[verifier::external_body]
pub(crate) fn shift_right(value: u8) -> (out: u8)
    ensures
        out == shifted_right(value),
{
    let mut bits = BitArray::<u8, Msb0>::new(value);
    bits.shift_end(1);
    bits.into_inner()
}

/// Writing one bit of a byte sets that bit and leaves the others.
pub proof fn lemma_bit_written(value: u8, written: usize, read: usize, bit: bool)
    by (bit_vector)
    requires
        written < 8,
        read < 8,
    ensures
        bit_at(with_bit(value, written, bit), read) == (if written == read {
            bit
        } else {
            bit_at(value, read)
        }),
{
}

} // verus!
