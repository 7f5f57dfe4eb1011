//! Double-precision scalars as IEEE-754 bit patterns.
//!
//! The closest-curve resolver compares distances that the host computed in
//! its native double-precision arithmetic. The host hands each scalar over
//! as its raw 64-bit IEEE-754 encoding (sign, 11 exponent bits, 52 fraction
//! bits), and this module defines the ordering the resolver uses on those
//! encodings: exactly the standard partial order on the encoded values,
//! where the two zeroes are equal and a NaN compares with nothing.

use vstd::prelude::*;

verus! {

/// The non-sign bits of a double-precision encoding.
pub const MAGNITUDE_MASK: u64 = 0x7FFF_FFFF_FFFF_FFFF;

/// Smallest magnitude of a non-finite encoding: the magnitude of infinity.
/// Every magnitude above it encodes a NaN.
pub const INFINITY_MAGNITUDE: u64 = 0x7FF0_0000_0000_0000;

/// The sign bit of the encoding is set, i.e. the encoded value is negative
/// (counting negative zero and negative NaNs).
pub open spec fn spec_sign(bits: u64) -> bool {
    bits >> 63 == 1u64
}

/// The encoding with the sign bit cleared: the encoded absolute value.
pub open spec fn spec_magnitude(bits: u64) -> u64 {
    bits & MAGNITUDE_MASK
}

/// The encoding denotes a NaN: exponent all ones and a non-zero fraction.
pub open spec fn spec_is_nan(bits: u64) -> bool {
    spec_magnitude(bits) > INFINITY_MAGNITUDE
}

/// The encoding denotes a zero, of either sign.
pub open spec fn spec_is_zero(bits: u64) -> bool {
    spec_magnitude(bits) == 0
}

/// Strict `<` between two encoded values, exactly as IEEE-754 orders them:
/// nothing compares with a NaN, the two zeroes are equal, negative values
/// sort below positive ones, and within one sign the magnitude decides
/// (reversed on the negative side). Infinities take part like any value.
pub open spec fn spec_lt(a: u64, b: u64) -> bool {
    &&& !spec_is_nan(a)
    &&& !spec_is_nan(b)
    &&& if spec_sign(a) != spec_sign(b) {
            // Opposite signs: a is below b exactly when a is the negative
            // one, unless both encode zero.
            spec_sign(a) && !(spec_is_zero(a) && spec_is_zero(b))
        } else if spec_sign(a) {
            // Both negative: the larger magnitude is the smaller value.
            spec_magnitude(a) > spec_magnitude(b)
        } else {
            // Both positive: magnitudes order as values.
            spec_magnitude(a) < spec_magnitude(b)
        }
}

/// Whether the encoding denotes a NaN.
pub fn is_nan(bits: u64) -> (r: bool)
    ensures
        r == spec_is_nan(bits),
{
    (bits & MAGNITUDE_MASK) > INFINITY_MAGNITUDE
}

/// Whether the encoding denotes a zero of either sign.
pub fn is_zero(bits: u64) -> (r: bool)
    ensures
        r == spec_is_zero(bits),
{
    (bits & MAGNITUDE_MASK) == 0
}

/// Strict `<` on two encoded double-precision values; false whenever either
/// operand is a NaN.
pub fn lt(a: u64, b: u64) -> (r: bool)
    ensures
        r == spec_lt(a, b),
{
    if is_nan(a) || is_nan(b) {
        false
    } else {
        let sign_a: bool = a >> 63 == 1u64;
        let sign_b: bool = b >> 63 == 1u64;
        let mag_a: u64 = a & MAGNITUDE_MASK;
        let mag_b: u64 = b & MAGNITUDE_MASK;
        if sign_a != sign_b {
            sign_a && !(mag_a == 0 && mag_b == 0)
        } else if sign_a {
            mag_a > mag_b
        } else {
            mag_a < mag_b
        }
    }
}

/// No encoded value is below itself; in particular a distance exactly equal
/// to a threshold never passes a strict comparison against it.
pub proof fn lemma_lt_irreflexive(bits: u64)
    ensures
        !spec_lt(bits, bits),
{
}

/// The order is transitive.
pub proof fn lemma_lt_transitive(a: u64, b: u64, c: u64)
    by (bit_vector)
    requires
        spec_lt(a, b),
        spec_lt(b, c),
    ensures
        spec_lt(a, c),
{
}

/// Away from NaNs the order is total: whatever is not above `b` sits below
/// everything that `b` sits below.
pub proof fn lemma_lt_connected(a: u64, b: u64, c: u64)
    by (bit_vector)
    requires
        !spec_is_nan(a),
        !spec_lt(a, b),
        spec_lt(c, b),
    ensures
        spec_lt(c, a),
{
}

} // verus!
