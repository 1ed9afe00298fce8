//! Predicates on IEEE 754 binary64 values, held as their bit patterns
//! (`f64::to_bits`). Monetary amounts, capacities and scores of the records
//! arrive in this form; the checks below are the comparisons the record
//! rules make, stated on the encoding.
use vstd::prelude::*;

verus! {

pub open spec fn exponent_bits(b: u64) -> u64 {
    (b >> 52u64) & 0x7FFu64
}

pub open spec fn mantissa_bits(b: u64) -> u64 {
    b & 0x000F_FFFF_FFFF_FFFFu64
}

pub open spec fn sign_set(b: u64) -> bool {
    (b >> 63u64) == 1u64
}

/// Magnitude bits: everything but the sign.
pub open spec fn magnitude(b: u64) -> u64 {
    b & 0x7FFF_FFFF_FFFF_FFFFu64
}

/// NaN: all-ones exponent with a non-zero mantissa.
pub open spec fn is_nan(b: u64) -> bool {
    exponent_bits(b) == 0x7FFu64 && mantissa_bits(b) != 0
}

/// `x.is_finite()`: the exponent is not all ones.
pub open spec fn is_finite(b: u64) -> bool {
    exponent_bits(b) != 0x7FFu64
}

/// `x < 0.0`: a non-NaN value with the sign set and a non-zero magnitude.
pub open spec fn lt_zero(b: u64) -> bool {
    !is_nan(b) && sign_set(b) && magnitude(b) != 0
}

/// `x <= 0.0`: a non-NaN value that is negative or a zero of either sign.
pub open spec fn le_zero(b: u64) -> bool {
    !is_nan(b) && (sign_set(b) || magnitude(b) == 0)
}

/// `x > 0.0`.
pub open spec fn gt_zero(b: u64) -> bool {
    !is_nan(b) && !sign_set(b) && magnitude(b) != 0
}

/// The bit pattern of `1.0`.
pub open spec fn one_bits() -> u64 {
    0x3FF0_0000_0000_0000u64
}

/// `x > 1.0`: positive non-NaN values are ordered like their bit patterns.
pub open spec fn gt_one(b: u64) -> bool {
    !is_nan(b) && !sign_set(b) && b > one_bits()
}

/// `x < 0.0 || x > 1.0`: outside the closed unit interval (NaN is neither).
pub open spec fn outside_unit(b: u64) -> bool {
    lt_zero(b) || gt_one(b)
}

/// `a == b`: false when either is NaN; the two zeros are equal; otherwise
/// equal bit patterns.
pub open spec fn feq(a: u64, b: u64) -> bool {
    !is_nan(a) && !is_nan(b) && (a == b || (magnitude(a) == 0 && magnitude(b) == 0))
}

/// `a == b`.
pub fn f64_eq(a: u64, b: u64) -> (r: bool)
    ensures
        r == feq(a, b),
{
    let nan_a = ((a >> 52u64) & 0x7FFu64) == 0x7FFu64 && (a & 0x000F_FFFF_FFFF_FFFFu64) != 0;
    let nan_b = ((b >> 52u64) & 0x7FFu64) == 0x7FFu64 && (b & 0x000F_FFFF_FFFF_FFFFu64) != 0;
    !nan_a && !nan_b && (a == b || ((a & 0x7FFF_FFFF_FFFF_FFFFu64) == 0 && (b
        & 0x7FFF_FFFF_FFFF_FFFFu64) == 0))
}

/// `a > b`: false when either is NaN or both are zeros; otherwise a positive
/// value exceeds every negative one, positives are ordered like their bit
/// patterns and negatives opposite to their magnitudes.
pub open spec fn gt(a: u64, b: u64) -> bool {
    if is_nan(a) || is_nan(b) || (magnitude(a) == 0 && magnitude(b) == 0) {
        false
    } else if !sign_set(a) && !sign_set(b) {
        a > b
    } else if !sign_set(a) && sign_set(b) {
        true
    } else if sign_set(a) && !sign_set(b) {
        false
    } else {
        magnitude(a) < magnitude(b)
    }
}

/// `a > b`.
pub fn f64_gt(a: u64, b: u64) -> (r: bool)
    ensures
        r == gt(a, b),
{
    let nan_a = ((a >> 52u64) & 0x7FFu64) == 0x7FFu64 && (a & 0x000F_FFFF_FFFF_FFFFu64) != 0;
    let nan_b = ((b >> 52u64) & 0x7FFu64) == 0x7FFu64 && (b & 0x000F_FFFF_FFFF_FFFFu64) != 0;
    let mag_a = a & 0x7FFF_FFFF_FFFF_FFFFu64;
    let mag_b = b & 0x7FFF_FFFF_FFFF_FFFFu64;
    let neg_a = (a >> 63u64) == 1u64;
    let neg_b = (b >> 63u64) == 1u64;
    if nan_a || nan_b || (mag_a == 0 && mag_b == 0) {
        false
    } else if !neg_a && !neg_b {
        a > b
    } else if !neg_a && neg_b {
        true
    } else if neg_a && !neg_b {
        false
    } else {
        mag_a < mag_b
    }
}

/// `x < 0.0`.
pub fn f64_lt_zero(b: u64) -> (r: bool)
    ensures
        r == lt_zero(b),
{
    let nan = ((b >> 52u64) & 0x7FFu64) == 0x7FFu64 && (b & 0x000F_FFFF_FFFF_FFFFu64) != 0;
    !nan && (b >> 63u64) == 1u64 && (b & 0x7FFF_FFFF_FFFF_FFFFu64) != 0
}

/// `x <= 0.0`.
pub fn f64_le_zero(b: u64) -> (r: bool)
    ensures
        r == le_zero(b),
{
    let nan = ((b >> 52u64) & 0x7FFu64) == 0x7FFu64 && (b & 0x000F_FFFF_FFFF_FFFFu64) != 0;
    !nan && ((b >> 63u64) == 1u64 || (b & 0x7FFF_FFFF_FFFF_FFFFu64) == 0)
}

/// `x > 0.0`.
pub fn f64_gt_zero(b: u64) -> (r: bool)
    ensures
        r == gt_zero(b),
{
    let nan = ((b >> 52u64) & 0x7FFu64) == 0x7FFu64 && (b & 0x000F_FFFF_FFFF_FFFFu64) != 0;
    !nan && (b >> 63u64) != 1u64 && (b & 0x7FFF_FFFF_FFFF_FFFFu64) != 0
}

/// `x.is_finite()`.
pub fn f64_is_finite(b: u64) -> (r: bool)
    ensures
        r == is_finite(b),
{
    ((b >> 52u64) & 0x7FFu64) != 0x7FFu64
}

/// `x < 0.0 || x > 1.0`.
pub fn f64_outside_unit(b: u64) -> (r: bool)
    ensures
        r == outside_unit(b),
{
    let nan = ((b >> 52u64) & 0x7FFu64) == 0x7FFu64 && (b & 0x000F_FFFF_FFFF_FFFFu64) != 0;
    let neg = !nan && (b >> 63u64) == 1u64 && (b & 0x7FFF_FFFF_FFFF_FFFFu64) != 0;
    let big = !nan && (b >> 63u64) != 1u64 && b > 0x3FF0_0000_0000_0000u64;
    neg || big
}

} // verus!
