//! Register access primitives.
//!
//! A register is held as a plain integer, the image of the hardware register it
//! stands for. Software changes it by a full write or by a read-modify-write
//! under a mask; everything else in this crate is built from these.

use vstd::prelude::*;

verus! {

/// The value of a 32-bit register after a read-modify-write: the bits selected
/// by `mask` are taken from `bits`, every other bit keeps its value.
pub open spec fn update_bits(value: u32, bits: u32, mask: u32) -> u32 {
    (value & !mask) | (bits & mask)
}

/// The 16-bit counterpart of [`update_bits`].
pub open spec fn update_bits16(value: u16, bits: u16, mask: u16) -> u16 {
    (value & !mask) | (bits & mask)
}

/// True when every bit of `mask` is set in `value`.
pub open spec fn all_set(value: u32, mask: u32) -> bool {
    value & mask == mask
}

/// The 16-bit counterpart of [`all_set`].
pub open spec fn all_set16(value: u16, mask: u16) -> bool {
    value & mask == mask
}

/// Read-modify-write of a 32-bit register under `mask`.
pub fn update(reg: &mut u32, bits: u32, mask: u32)
    ensures
        *final(reg) == update_bits(*old(reg), bits, mask),
{
    *reg = (*reg & !mask) | (bits & mask);
}

/// Read-modify-write of a 16-bit register under `mask`.
pub fn update16(reg: &mut u16, bits: u16, mask: u16)
    ensures
        *final(reg) == update_bits16(*old(reg), bits, mask),
{
    *reg = (*reg & !mask) | (bits & mask);
}

/// Tells whether every bit of `mask` is set in `value`.
pub fn is_set(value: u32, mask: u32) -> (set: bool)
    ensures
        set == all_set(value, mask),
{
    (value & mask) == mask
}

/// Tells whether every bit of `mask` is set in the 16-bit `value`.
pub fn is_set16(value: u16, mask: u16) -> (set: bool)
    ensures
        set == all_set16(value, mask),
{
    (value & mask) == mask
}

/// A read-modify-write leaves the selected bits equal to those of `bits` and
/// touches no other bit.
pub proof fn lemma_update_bits(value: u32, bits: u32, mask: u32)
    by (bit_vector)
    ensures
        update_bits(value, bits, mask) & mask == bits & mask,
        update_bits(value, bits, mask) & !mask == value & !mask,
{
}

/// Repeating a read-modify-write changes nothing.
pub proof fn lemma_update_twice(value: u32, bits: u32, mask: u32)
    by (bit_vector)
    ensures
        update_bits(update_bits(value, bits, mask), bits, mask) == update_bits(value, bits, mask),
{
}

/// A second read-modify-write under the same mask overrides the first.
pub proof fn lemma_update_overrides(value: u32, first: u32, second: u32, mask: u32)
    by (bit_vector)
    ensures
        update_bits(update_bits(value, first, mask), second, mask) == update_bits(
            value,
            second,
            mask,
        ),
{
}

/// Read-modify-writes under disjoint masks do not disturb each other.
pub proof fn lemma_update_disjoint(value: u32, a: u32, ma: u32, b: u32, mb: u32)
    by (bit_vector)
    requires
        ma & mb == 0,
    ensures
        update_bits(update_bits(value, a, ma), b, mb) == update_bits(
            update_bits(value, b, mb),
            a,
            ma,
        ),
        update_bits(update_bits(value, a, ma), b, mb) & ma == a & ma,
{
}

/// The 16-bit counterpart of [`lemma_update_bits`].
pub proof fn lemma_update_bits16(value: u16, bits: u16, mask: u16)
    by (bit_vector)
    ensures
        update_bits16(value, bits, mask) & mask == bits & mask,
        update_bits16(value, bits, mask) & !mask == value & !mask,
{
}

/// The 16-bit counterpart of [`lemma_update_twice`].
pub proof fn lemma_update_twice16(value: u16, bits: u16, mask: u16)
    by (bit_vector)
    ensures
        update_bits16(update_bits16(value, bits, mask), bits, mask) == update_bits16(
            value,
            bits,
            mask,
        ),
{
}

/// The 16-bit counterpart of [`lemma_update_overrides`].
pub proof fn lemma_update_overrides16(value: u16, first: u16, second: u16, mask: u16)
    by (bit_vector)
    ensures
        update_bits16(update_bits16(value, first, mask), second, mask) == update_bits16(
            value,
            second,
            mask,
        ),
{
}

/// The 16-bit counterpart of [`lemma_update_disjoint`].
pub proof fn lemma_update_disjoint16(value: u16, a: u16, ma: u16, b: u16, mb: u16)
    by (bit_vector)
    requires
        ma & mb == 0,
    ensures
        update_bits16(update_bits16(value, a, ma), b, mb) == update_bits16(
            update_bits16(value, b, mb),
            a,
            ma,
        ),
{
}

} // verus!
