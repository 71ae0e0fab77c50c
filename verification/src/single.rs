//! IEEE-754 single-precision arithmetic on raw bit patterns.
//!
//! The pressure figure of the touch decision is a single-precision value.
//! The library carries such values as their 32-bit IEEE-754 bit patterns and
//! performs the arithmetic through `rustc_apfloat`, a bit-exact software
//! implementation of IEEE-754 with round-to-nearest-ties-to-even, the same
//! rounding the hardware uses. Each operation's result is a function of its
//! argument bit patterns alone, so each gets an uninterpreted name that the
//! contracts of the callers speak of; the few facts stated beside the names
//! are the documented IEEE-754 behavior on zeros, infinities and NaNs that
//! the touch decision's edge cases rest on.

use vstd::prelude::*;

use rustc_apfloat::ieee::Single;
use rustc_apfloat::Float;

verus! {

/// Bit pattern of positive one.
pub const ONE_BITS: u32 = 0x3F80_0000;

/// Bit pattern of positive 4096, the full scale of a 12-bit sample.
pub const FULL_SCALE_BITS: u32 = 0x4580_0000;

/// Bit pattern of positive infinity. Patterns strictly below it are the
/// non-negative finite values; patterns strictly above it with a zero sign
/// bit are NaNs.
pub const POS_INF_BITS: u32 = 0x7F80_0000;

/// Whether a bit pattern encodes a NaN: all exponent bits set and a
/// non-zero significand.
pub open spec fn is_nan_bits(b: u32) -> bool {
    (b >> 23) & 0xFF == 0xFF && b & 0x7F_FFFF != 0
}

/// The quotient's bit pattern, as IEEE-754 single-precision division
/// rounding to nearest, ties to even.
pub uninterp spec fn single_div(a: u32, b: u32) -> u32;

/// The difference's bit pattern, as IEEE-754 single-precision subtraction
/// rounding to nearest, ties to even.
pub uninterp spec fn single_sub(a: u32, b: u32) -> u32;

/// The product's bit pattern, as IEEE-754 single-precision multiplication
/// rounding to nearest, ties to even.
pub uninterp spec fn single_mul(a: u32, b: u32) -> u32;

/// The IEEE-754 "less than" comparison of two bit patterns; false whenever
/// either operand is NaN.
pub uninterp spec fn single_lt(a: u32, b: u32) -> bool;

/// The bit pattern of the single-precision value nearest to an unsigned
/// 16-bit integer.
pub uninterp spec fn single_from_u16(v: u16) -> u32;

/// Relies on rustc_apfloat's IEEE-754 single-precision division. The facts
/// beside the name are documented IEEE-754 behavior: a positive finite
/// dividend over positive zero is positive infinity, zero over zero is NaN,
/// a NaN operand gives NaN, and a non-negative finite dividend over positive
/// 4096 stays non-negative finite (division by a finite value above one
/// cannot reach infinity, and rounding is monotone).
#[verifier::external_body]
pub(crate) fn div_bits(a: u32, b: u32) -> (r: u32)
    ensures
        r == single_div(a, b),
        b == 0 && 0 < a < POS_INF_BITS ==> r == POS_INF_BITS,
        b == 0 && a == 0 ==> is_nan_bits(r),
        is_nan_bits(a) || is_nan_bits(b) ==> is_nan_bits(r),
        b == FULL_SCALE_BITS && a < POS_INF_BITS ==> r < POS_INF_BITS,
{
    (Single::from_bits(a as u128) / Single::from_bits(b as u128)).value.to_bits() as u32
}

/// Relies on rustc_apfloat's IEEE-754 single-precision subtraction. The
/// facts beside the name are documented IEEE-754 behavior: positive
/// infinity minus a finite value is positive infinity, and a NaN operand
/// gives NaN.
#[verifier::external_body]
pub(crate) fn sub_bits(a: u32, b: u32) -> (r: u32)
    ensures
        r == single_sub(a, b),
        a == POS_INF_BITS && b < POS_INF_BITS ==> r == POS_INF_BITS,
        is_nan_bits(a) || is_nan_bits(b) ==> is_nan_bits(r),
{
    (Single::from_bits(a as u128) - Single::from_bits(b as u128)).value.to_bits() as u32
}

/// Relies on rustc_apfloat's IEEE-754 single-precision multiplication. The
/// facts beside the name are documented IEEE-754 behavior: a NaN operand
/// gives NaN, and a non-negative finite value times positive infinity is
/// positive infinity, except that zero times infinity is NaN.
#[verifier::external_body]
pub(crate) fn mul_bits(a: u32, b: u32) -> (r: u32)
    ensures
        r == single_mul(a, b),
        is_nan_bits(a) || is_nan_bits(b) ==> is_nan_bits(r),
        b == POS_INF_BITS && 0 < a < POS_INF_BITS ==> r == POS_INF_BITS,
        b == POS_INF_BITS && a == 0 ==> is_nan_bits(r),
{
    (Single::from_bits(a as u128) * Single::from_bits(b as u128)).value.to_bits() as u32
}

/// Relies on rustc_apfloat's `PartialOrd` for IEEE-754 single precision:
/// `partial_cmp` is `None` when either operand is NaN, so `<` is then
/// false; and nothing compares above positive infinity, so positive
/// infinity is `<` no value.
#[verifier::external_body]
pub(crate) fn lt_bits(a: u32, b: u32) -> (r: bool)
    ensures
        r == single_lt(a, b),
        is_nan_bits(a) || is_nan_bits(b) ==> !r,
        a == POS_INF_BITS ==> !r,
{
    Single::from_bits(a as u128) < Single::from_bits(b as u128)
}

/// Relies on rustc_apfloat's `from_u128` conversion to IEEE-754 single
/// precision: an unsigned 16-bit integer converts to a non-negative finite
/// value (it is far below the overflow threshold), and zero converts to
/// positive zero, whose bit pattern is zero.
#[verifier::external_body]
pub(crate) fn from_u16_bits(v: u16) -> (r: u32)
    ensures
        r == single_from_u16(v),
        r < POS_INF_BITS,
        v == 0 ==> r == 0,
{
    Single::from_u128(v as u128).value.to_bits() as u32
}

} // verus!
