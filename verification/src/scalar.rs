//! IEEE-754 binary64 scalars as `u64` bit patterns.
//!
//! Every scalar in this crate is the bit pattern of an IEEE-754 binary64
//! value.  The arithmetic on those values is not re-implemented here: each
//! operation is named by an uninterpreted spec function and performed by
//! `const_soft_float`, whose `SoftF64` type is a software port of the
//! standard binary64 operations (compiler-builtins arithmetic, libm square
//! root and trigonometry) and converts losslessly to and from `u64` bit
//! patterns.  All arithmetic rounds to nearest, ties to even — the rounding
//! every Rust float expression uses.
//!
//! Negation is the one operation defined here in full: IEEE-754 negation is
//! exactly a flip of the sign bit, so it needs no outside call.

use vstd::prelude::*;
use const_soft_float::soft_f64::SoftF64;

verus! {

/// Bit pattern of +0.0.
pub const ZERO_BITS: u64 = 0x0000_0000_0000_0000;

/// Bit pattern of 1.0.
pub const ONE_BITS: u64 = 0x3FF0_0000_0000_0000;

/// Bit pattern of 2π (the binary64 nearest to 6.283185307179586...).
pub const TWO_PI_BITS: u64 = 0x4019_21FB_5444_2D18;

/// The sign bit of a binary64.
pub const SIGN_MASK: u64 = 0x8000_0000_0000_0000;

/// The exponent field of a binary64.
pub const EXP_MASK: u64 = 0x7FF0_0000_0000_0000;

/// The mantissa field of a binary64.
pub const FRAC_MASK: u64 = 0x000F_FFFF_FFFF_FFFF;

/// The bit pattern encodes a NaN: exponent all ones, mantissa non-zero.
pub open spec fn is_nan(a: u64) -> bool {
    a & EXP_MASK == EXP_MASK && a & FRAC_MASK != 0
}

/// The bit pattern encodes a finite value (neither NaN nor an infinity).
pub open spec fn is_finite(a: u64) -> bool {
    a & EXP_MASK != EXP_MASK
}

/// IEEE-754 negation: the same value with the sign bit flipped.
pub open spec fn negated(a: u64) -> u64 {
    a ^ SIGN_MASK
}

/// The binary64 sum of `a` and `b`, rounded to nearest, ties to even.
pub uninterp spec fn ieee_add(a: u64, b: u64) -> u64;

/// The binary64 difference of `a` and `b`, rounded to nearest, ties to even.
pub uninterp spec fn ieee_sub(a: u64, b: u64) -> u64;

/// The binary64 product of `a` and `b`, rounded to nearest, ties to even.
pub uninterp spec fn ieee_mul(a: u64, b: u64) -> u64;

/// The binary64 quotient of `a` and `b`, rounded to nearest, ties to even.
pub uninterp spec fn ieee_div(a: u64, b: u64) -> u64;

/// The binary64 square root of `a`, rounded to nearest, ties to even.
pub uninterp spec fn ieee_sqrt(a: u64) -> u64;

/// The binary64 sine of `a` (an angle in radians).
pub uninterp spec fn ieee_sin(a: u64) -> u64;

/// The binary64 cosine of `a` (an angle in radians).
pub uninterp spec fn ieee_cos(a: u64) -> u64;

/// IEEE-754 equality of the values `a` and `b` encode: `-0.0 == 0.0`,
/// and a NaN is equal to nothing.
pub uninterp spec fn ieee_eq(a: u64, b: u64) -> bool;

/// IEEE-754 `<=` on the values `a` and `b` encode; false whenever either
/// is a NaN.
pub uninterp spec fn ieee_le(a: u64, b: u64) -> bool;

/// The lesser of `a` and `b`; if one of the two is a NaN, the other.
///
/// This is the behaviour `f64::min` documents (for a pair of zeros of
/// opposite sign it leaves the choice open; this takes the left one).
pub open spec fn spec_min(a: u64, b: u64) -> u64 {
    if ieee_le(a, b) {
        a
    } else if is_nan(b) {
        a
    } else {
        b
    }
}

/// Relies on `const_soft_float::soft_f64::SoftF64::add`: IEEE-754 binary64
/// addition, round to nearest, ties to even.  `(+0.0) + (+0.0)` is `+0.0`.
/// The implementation treats its operands symmetrically — it swaps them so
/// the larger magnitude comes first, and every special case mirrors — so
/// addition is commutative except when both operands are NaNs, whose
/// payloads then propagate in order.
#[verifier::external_body]
pub(crate) fn fadd(a: u64, b: u64) -> (r: u64)
    ensures
        r == ieee_add(a, b),
        a == ZERO_BITS && b == ZERO_BITS ==> r == ZERO_BITS,
        !(is_nan(a) && is_nan(b)) ==> r == ieee_add(b, a),
{
    SoftF64::from_bits(a).add(SoftF64::from_bits(b)).to_bits()
}

/// Relies on `const_soft_float::soft_f64::SoftF64::sub`: IEEE-754 binary64
/// subtraction, round to nearest, ties to even.  Subtracting a finite
/// value from itself gives `+0.0` exactly.
#[verifier::external_body]
pub(crate) fn fsub(a: u64, b: u64) -> (r: u64)
    ensures
        r == ieee_sub(a, b),
        a == b && is_finite(a) ==> r == ZERO_BITS,
{
    SoftF64::from_bits(a).sub(SoftF64::from_bits(b)).to_bits()
}

/// Relies on `const_soft_float::soft_f64::SoftF64::mul`: IEEE-754 binary64
/// multiplication, round to nearest, ties to even.  `(+0.0) * (+0.0)` is
/// `+0.0`.
#[verifier::external_body]
pub(crate) fn fmul(a: u64, b: u64) -> (r: u64)
    ensures
        r == ieee_mul(a, b),
        a == ZERO_BITS && b == ZERO_BITS ==> r == ZERO_BITS,
{
    SoftF64::from_bits(a).mul(SoftF64::from_bits(b)).to_bits()
}

/// Relies on `const_soft_float::soft_f64::SoftF64::div`: IEEE-754 binary64
/// division, round to nearest, ties to even.
#[verifier::external_body]
pub(crate) fn fdiv(a: u64, b: u64) -> (r: u64)
    ensures
        r == ieee_div(a, b),
{
    SoftF64::from_bits(a).div(SoftF64::from_bits(b)).to_bits()
}

/// Relies on `const_soft_float::soft_f64::SoftF64::sqrt`: IEEE-754
/// binary64 square root, correctly rounded.  The square root of `+0.0` is
/// `+0.0`.
#[verifier::external_body]
pub(crate) fn fsqrt(a: u64) -> (r: u64)
    ensures
        r == ieee_sqrt(a),
        a == ZERO_BITS ==> r == ZERO_BITS,
{
    SoftF64::from_bits(a).sqrt().to_bits()
}

/// Relies on `const_soft_float::soft_f64::SoftF64::sin`: binary64 sine in
/// radians.  The result depends on the argument alone.
#[verifier::external_body]
pub(crate) fn fsin(a: u64) -> (r: u64)
    ensures
        r == ieee_sin(a),
{
    SoftF64::from_bits(a).sin().to_bits()
}

/// Relies on `const_soft_float::soft_f64::SoftF64::cos`: binary64 cosine
/// in radians.  The result depends on the argument alone.
#[verifier::external_body]
pub(crate) fn fcos(a: u64) -> (r: u64)
    ensures
        r == ieee_cos(a),
{
    SoftF64::from_bits(a).cos().to_bits()
}

/// Relies on `const_soft_float::soft_f64::SoftF64::cmp`: IEEE-754
/// comparison; `None` exactly when one of the operands is a NaN.  Equal
/// bit patterns that are not NaN compare equal; a NaN compares equal to
/// nothing.
#[verifier::external_body]
pub(crate) fn feq(a: u64, b: u64) -> (r: bool)
    ensures
        r == ieee_eq(a, b),
        a == b && !is_nan(a) ==> r,
        is_nan(a) || is_nan(b) ==> !r,
{
    matches!(
        SoftF64::from_bits(a).cmp(SoftF64::from_bits(b)),
        Some(core::cmp::Ordering::Equal)
    )
}

/// Relies on `const_soft_float::soft_f64::SoftF64::cmp`: IEEE-754
/// comparison; `None` exactly when one of the operands is a NaN, so the
/// result here is false whenever either operand is a NaN.
#[verifier::external_body]
pub(crate) fn fle(a: u64, b: u64) -> (r: bool)
    ensures
        r == ieee_le(a, b),
        is_nan(a) || is_nan(b) ==> !r,
{
    matches!(
        SoftF64::from_bits(a).cmp(SoftF64::from_bits(b)),
        Some(core::cmp::Ordering::Less) | Some(core::cmp::Ordering::Equal)
    )
}

/// IEEE-754 negation, performed directly: flip the sign bit.
pub(crate) fn fneg(a: u64) -> (r: u64)
    ensures
        r == negated(a),
{
    a ^ SIGN_MASK
}

/// The behaviour of `f64::min`, written out over the trusted comparison:
/// the lesser operand, or the other one when one of the two is a NaN.
pub(crate) fn fmin(a: u64, b: u64) -> (r: u64)
    ensures
        r == spec_min(a, b),
{
    if fle(a, b) {
        a
    } else if (b & EXP_MASK == EXP_MASK) && (b & FRAC_MASK != 0) {
        a
    } else {
        b
    }
}

} // verus!
