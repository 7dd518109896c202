//! The 32-bit scalar, held as its IEEE-754 bit pattern.
//!
//! A slot of the transform matrix stores a 32-bit binary floating-point
//! value. This module models such a value as the `u32` holding its bits, and
//! states the comparisons the matrix logic needs: equality to zero, equality
//! to one, full scalar equality, and negation. Each is exact: two bit
//! patterns compare equal as scalars only when they are identical or are the
//! two zeroes, and a NaN compares equal to nothing, itself included.

use vstd::prelude::*;

verus! {

/// Bit pattern of the scalar 0.0.
pub const SCALAR_ZERO: u32 = 0x0000_0000;

/// Bit pattern of the scalar -0.0: only the sign bit is set.
pub const SCALAR_NEG_ZERO: u32 = 0x8000_0000;

/// Bit pattern of the scalar 1.0.
pub const SCALAR_ONE: u32 = 0x3F80_0000;

/// The exponent bits of a 32-bit scalar.
pub const SCALAR_EXPONENT_MASK: u32 = 0x7F80_0000;

/// The fraction bits of a 32-bit scalar.
pub const SCALAR_FRACTION_MASK: u32 = 0x007F_FFFF;

/// The scalar is a NaN: exponent bits all set, fraction non-zero.
pub open spec fn scalar_is_nan(bits: u32) -> bool {
    bits & SCALAR_EXPONENT_MASK == SCALAR_EXPONENT_MASK && bits & SCALAR_FRACTION_MASK != 0
}

/// The scalar compares equal to 0.0. Both zeroes qualify; every other
/// pattern, NaN included, does not.
pub open spec fn scalar_is_zero(bits: u32) -> bool {
    bits == SCALAR_ZERO || bits == SCALAR_NEG_ZERO
}

/// The scalar compares equal to 1.0: exactly one bit pattern does.
pub open spec fn scalar_is_one(bits: u32) -> bool {
    bits == SCALAR_ONE
}

/// Scalar equality on bit patterns: a NaN equals nothing, the two zeroes
/// equal each other, and every other value equals exactly itself.
pub open spec fn scalar_eq(a: u32, b: u32) -> bool {
    &&& !scalar_is_nan(a)
    &&& !scalar_is_nan(b)
    &&& (a == b || (scalar_is_zero(a) && scalar_is_zero(b)))
}

/// The negated scalar: the same pattern with the sign bit flipped.
pub open spec fn scalar_neg(bits: u32) -> u32 {
    bits ^ SCALAR_NEG_ZERO
}

/// Decides whether the scalar compares equal to 0.0.
pub fn scalar_eq_zero(bits: u32) -> (r: bool)
    ensures
        r == scalar_is_zero(bits),
{
    bits == SCALAR_ZERO || bits == SCALAR_NEG_ZERO
}

/// Decides whether the scalar compares equal to 1.0.
pub fn scalar_eq_one(bits: u32) -> (r: bool)
    ensures
        r == scalar_is_one(bits),
{
    bits == SCALAR_ONE
}

/// Decides whether the scalar is a NaN.
pub fn scalar_nan(bits: u32) -> (r: bool)
    ensures
        r == scalar_is_nan(bits),
{
    bits & SCALAR_EXPONENT_MASK == SCALAR_EXPONENT_MASK && bits & SCALAR_FRACTION_MASK != 0
}

/// Decides scalar equality of two bit patterns.
pub fn scalars_equal(a: u32, b: u32) -> (r: bool)
    ensures
        r == scalar_eq(a, b),
{
    !scalar_nan(a) && !scalar_nan(b) && (a == b || (scalar_eq_zero(a) && scalar_eq_zero(b)))
}

/// Negates the scalar by flipping its sign bit.
pub fn scalar_negated(bits: u32) -> (r: u32)
    ensures
        r == scalar_neg(bits),
{
    bits ^ SCALAR_NEG_ZERO
}

} // verus!
