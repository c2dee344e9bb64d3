//! Real numbers cross the boundary as IEEE 754 binary64 values. The library
//! carries each one as its 64-bit pattern and reads from the pattern the two
//! facts that the bridge contract speaks of.

use vstd::prelude::*;

verus! {

/// The pattern of positive infinity: sign clear, exponent full, fraction zero.
pub const POSITIVE_INFINITY: u64 = 0x7FF0_0000_0000_0000;

/// The pattern of negative zero: only the sign bit.
pub const NEGATIVE_ZERO: u64 = 0x8000_0000_0000_0000;

/// The pattern stands for zero, of either sign.
pub open spec fn zero_bits(bits: u64) -> bool {
    bits == 0 || bits == NEGATIVE_ZERO
}

/// The pattern stands for a number strictly greater than zero (infinity
/// included): the sign is clear, and it is neither zero nor a NaN.
pub open spec fn positive_bits(bits: u64) -> bool {
    0 < bits <= POSITIVE_INFINITY
}

/// Whether the number compares equal to zero.
pub fn is_zero(bits: u64) -> (zero: bool)
    ensures
        zero == zero_bits(bits),
{
    bits == 0 || bits == NEGATIVE_ZERO
}

/// Whether the number is strictly greater than zero.
pub fn is_strictly_positive(bits: u64) -> (positive: bool)
    ensures
        positive == positive_bits(bits),
{
    0 < bits && bits <= POSITIVE_INFINITY
}

} // verus!
