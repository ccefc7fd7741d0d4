//! IEEE-754 binary64 values carried by their bit patterns.
//!
//! The engine's ratios and channel levels are `f64` in the user interface;
//! the verified core holds them as the `u64` produced by `f64::to_bits`.
//! The few operations the core performs on them (equality, clamping to the
//! unit interval, telling NaN apart) are defined here on the bit patterns,
//! following IEEE-754 semantics exactly.

use vstd::prelude::*;

verus! {

/// Bit pattern of `+0.0`.
pub const F64_ZERO: u64 = 0u64;
/// Bit pattern of `1.0`.
pub const F64_ONE: u64 = 0x3FF0_0000_0000_0000u64;
/// Bit pattern of `1.0f32`.
pub const F32_ONE: u32 = 0x3F80_0000u32;
/// Bit pattern of `+inf`.
pub const F64_INFINITY: u64 = 0x7FF0_0000_0000_0000u64;
/// The sign bit.
pub const F64_SIGN_BIT: u64 = 0x8000_0000_0000_0000u64;
/// Every bit but the sign bit.
pub const F64_MAGNITUDE_MASK: u64 = 0x7FFF_FFFF_FFFF_FFFFu64;

/// Exponent all ones and a non-zero fraction.
pub open spec fn spec_is_nan(bits: u64) -> bool {
    (bits & F64_MAGNITUDE_MASK) > F64_INFINITY
}

/// `+0.0` or `-0.0`.
pub open spec fn spec_is_zero(bits: u64) -> bool {
    (bits & F64_MAGNITUDE_MASK) == 0
}

pub open spec fn spec_sign_set(bits: u64) -> bool {
    (bits & F64_SIGN_BIT) != 0
}

/// IEEE equality: NaN equals nothing, the two zeros are equal, and any
/// other pair is equal exactly when the patterns are.
pub open spec fn spec_eq(a: u64, b: u64) -> bool {
    &&& !spec_is_nan(a)
    &&& !spec_is_nan(b)
    &&& (a == b || (spec_is_zero(a) && spec_is_zero(b)))
}

/// `x < 0.0`: a negative number that is neither a zero nor NaN.
pub open spec fn spec_lt_zero(bits: u64) -> bool {
    spec_sign_set(bits) && !spec_is_zero(bits) && !spec_is_nan(bits)
}

/// `x > 1.0`: for non-negative numbers the order of the patterns is the
/// numeric order, `+inf` included.
pub open spec fn spec_gt_one(bits: u64) -> bool {
    !spec_sign_set(bits) && !spec_is_nan(bits) && bits > F64_ONE
}

/// `x.clamp(0.0, 1.0)`: below zero gives `+0.0`, above one gives `1.0`,
/// NaN and `-0.0` are returned as they are.
pub open spec fn spec_clamp_unit(bits: u64) -> u64 {
    if spec_lt_zero(bits) {
        F64_ZERO
    } else if spec_gt_one(bits) {
        F64_ONE
    } else {
        bits
    }
}

pub fn is_nan(bits: u64) -> (r: bool)
    ensures
        r == spec_is_nan(bits),
{
    (bits & F64_MAGNITUDE_MASK) > F64_INFINITY
}

pub fn f64_eq(a: u64, b: u64) -> (r: bool)
    ensures
        r == spec_eq(a, b),
{
    !is_nan(a) && !is_nan(b) && (a == b || ((a & F64_MAGNITUDE_MASK) == 0 && (b
        & F64_MAGNITUDE_MASK) == 0))
}

pub fn clamp_unit(bits: u64) -> (r: u64)
    ensures
        r == spec_clamp_unit(bits),
{
    let nan = is_nan(bits);
    if (bits & F64_SIGN_BIT) != 0 && (bits & F64_MAGNITUDE_MASK) != 0 && !nan {
        F64_ZERO
    } else if (bits & F64_SIGN_BIT) == 0 && !nan && bits > F64_ONE {
        F64_ONE
    } else {
        bits
    }
}

/// Clamping is idempotent: a clamped ratio stays as it is.
pub proof fn lemma_clamp_unit_idempotent(bits: u64)
    ensures
        spec_clamp_unit(spec_clamp_unit(bits)) == spec_clamp_unit(bits),
{
    assert(F64_ZERO & F64_MAGNITUDE_MASK == 0) by (bit_vector);
    assert(F64_ZERO & F64_SIGN_BIT == 0) by (bit_vector);
    assert(F64_ONE & F64_SIGN_BIT == 0) by (bit_vector);
    assert(F64_ONE & F64_MAGNITUDE_MASK == F64_ONE) by (bit_vector);
}

/// The result of clamping is NaN, a zero, or a number in `[0, 1]`.
pub proof fn lemma_clamp_unit_range(bits: u64)
    ensures
        spec_is_nan(spec_clamp_unit(bits)) || spec_is_zero(spec_clamp_unit(bits)) || (
        !spec_sign_set(spec_clamp_unit(bits)) && spec_clamp_unit(bits) <= F64_ONE),
{
    assert(F64_ZERO & F64_MAGNITUDE_MASK == 0) by (bit_vector);
    assert(F64_ONE & F64_SIGN_BIT == 0) by (bit_vector);
}

/// A number in `[0, 1]`: a zero, or a non-negative number at most one.
pub open spec fn spec_in_unit(bits: u64) -> bool {
    !spec_is_nan(bits) && (spec_is_zero(bits) || (!spec_sign_set(bits) && bits <= F64_ONE))
}

/// A ratio held to `[0, 1]`: NaN becomes `+0.0`, anything else is clamped.
pub open spec fn spec_unit_ratio(bits: u64) -> u64 {
    if spec_is_nan(bits) {
        F64_ZERO
    } else {
        spec_clamp_unit(bits)
    }
}

pub fn unit_ratio(bits: u64) -> (r: u64)
    ensures
        r == spec_unit_ratio(bits),
{
    if is_nan(bits) {
        F64_ZERO
    } else {
        clamp_unit(bits)
    }
}

/// A ratio held to `[0, 1]` is a number in `[0, 1]`, and holding one
/// that already is changes nothing.
pub proof fn lemma_unit_ratio(bits: u64)
    ensures
        spec_in_unit(spec_unit_ratio(bits)),
        spec_in_unit(bits) ==> spec_unit_ratio(bits) == bits,
        spec_in_unit(F64_ZERO),
{
    assert(F64_ZERO & F64_MAGNITUDE_MASK == 0) by (bit_vector);
    assert(F64_ZERO & F64_SIGN_BIT == 0) by (bit_vector);
    assert(F64_ONE & F64_SIGN_BIT == 0) by (bit_vector);
    assert(F64_ONE & F64_MAGNITUDE_MASK == F64_ONE) by (bit_vector);
    assert(F64_ONE & F64_MAGNITUDE_MASK != 0) by (bit_vector);
    assert(spec_is_zero(bits) ==> !spec_is_nan(bits));
    assert((bits & F64_MAGNITUDE_MASK) == 0 && (bits & F64_SIGN_BIT) == 0 ==> bits == 0)
        by (bit_vector);
}

/// Holding a ratio to `[0, 1]`: NaN and every negative number become
/// `+0.0`, every number above one (infinity included) becomes `1.0`.
pub proof fn lemma_unit_ratio_cases(bits: u64)
    ensures
        spec_is_nan(bits) ==> spec_unit_ratio(bits) == F64_ZERO,
        spec_lt_zero(bits) ==> spec_unit_ratio(bits) == F64_ZERO,
        spec_gt_one(bits) ==> spec_unit_ratio(bits) == F64_ONE,
        spec_in_unit(bits) ==> spec_unit_ratio(bits) == bits,
{
    lemma_unit_ratio(bits);
}

} // verus!
