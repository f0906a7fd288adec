//! Scalars as IEEE-754 single-precision bit patterns.
//!
//! A scalar is carried as the 32-bit pattern of a single-precision number:
//! one sign bit, eight exponent bits, twenty-three fraction bits. The one
//! arithmetic operation that is exact integer logic on the pattern is
//! negation, which flips the sign bit and leaves every other bit alone.

use vstd::prelude::*;

verus! {

/// The sign bit of a single-precision pattern.
pub const SIGN_BIT: u32 = 0x8000_0000;

/// The pattern of the negated scalar: the sign bit flipped.
pub open spec fn spec_neg(b: u32) -> u32 {
    b ^ SIGN_BIT
}

/// IEEE-754 negation of a scalar, exact on every bit pattern,
/// including NaN and the infinities.
pub fn neg_bits(b: u32) -> (r: u32)
    ensures
        r == spec_neg(b),
{
    b ^ SIGN_BIT
}

/// Negation is an involution: flipping the sign bit twice restores
/// the original pattern.
pub proof fn lemma_neg_involution(b: u32)
    ensures
        spec_neg(spec_neg(b)) == b,
{
    assert(spec_neg(spec_neg(b)) == b) by (bit_vector);
}

} // verus!
