//! Scalar layer: IEEE-754 binary32 values carried as raw bit patterns.
//!
//! A scalar of this library is the 32-bit pattern of a binary32 value, held
//! in a `u32`. Negation, absolute value and ordered comparison are bit-level
//! operations whose whole behaviour fits in a few lines of specification, so
//! they are implemented and verified here. Rounded arithmetic (addition,
//! subtraction, multiplication, division) and the transcendental functions
//! have no such short statement; each is named by an uninterpreted spec
//! function and performed by a trusted call into an outside floating-point
//! library.

use rustc_apfloat::Float;
use rustc_apfloat::ieee::Single;
use vstd::prelude::*;

verus! {

/// The bit of a binary32 pattern that holds the sign.
pub const SIGN_MASK: u32 = 0x8000_0000;
/// The bits of a binary32 pattern that hold the magnitude (exponent and fraction).
pub const MAG_MASK: u32 = 0x7FFF_FFFF;
/// The exponent field of a binary32 pattern.
pub const EXP_MASK: u32 = 0x7F80_0000;
/// The fraction field of a binary32 pattern.
pub const FRAC_MASK: u32 = 0x007F_FFFF;

/// The bit pattern of +0.0.
pub const ZERO_BITS: u32 = 0x0000_0000;
/// The bit pattern of 1.0.
pub const ONE_BITS: u32 = 0x3F80_0000;
/// The bit pattern of 2.0.
pub const TWO_BITS: u32 = 0x4000_0000;
/// The bit pattern of the component-wise comparison tolerance (one ten-thousandth).
pub const TOL_BITS: u32 = 0x38D1_B717;

/// A pattern is a NaN when its exponent field is all ones and its fraction
/// field is not zero.
pub open spec fn is_nan_bits(a: u32) -> bool {
    a & EXP_MASK == EXP_MASK && a & FRAC_MASK != 0u32
}

/// IEEE-754 negation: the sign bit flipped, every other bit kept.
pub open spec fn neg_bits(a: u32) -> u32 {
    a ^ SIGN_MASK
}

/// IEEE-754 absolute value: the sign bit cleared, every other bit kept.
pub open spec fn abs_bits(a: u32) -> u32 {
    a & MAG_MASK
}

/// The ordered less-than comparison of two binary32 patterns: false when
/// either operand is a NaN; the two zeros are equal; otherwise values order
/// as sign-magnitude integers.
pub open spec fn lt_bits(a: u32, b: u32) -> bool {
    if is_nan_bits(a) || is_nan_bits(b) {
        false
    } else {
        let a_neg = a & SIGN_MASK != 0u32;
        let b_neg = b & SIGN_MASK != 0u32;
        let a_mag = a & MAG_MASK;
        let b_mag = b & MAG_MASK;
        if a_neg && b_neg {
            b_mag < a_mag
        } else if !a_neg && !b_neg {
            a_mag < b_mag
        } else if a_neg {
            a_mag != 0u32 || b_mag != 0u32
        } else {
            false
        }
    }
}

/// The bit pattern of the rounded sum of the binary32 values with bit
/// patterns `a` and `b`.
pub uninterp spec fn add_bits(a: u32, b: u32) -> u32;

/// The bit pattern of the rounded difference of the binary32 values with bit
/// patterns `a` and `b`.
pub uninterp spec fn sub_bits(a: u32, b: u32) -> u32;

/// The bit pattern of the rounded product of the binary32 values with bit
/// patterns `a` and `b`.
pub uninterp spec fn mul_bits(a: u32, b: u32) -> u32;

/// The bit pattern of the rounded quotient of the binary32 values with bit
/// patterns `a` and `b`.
pub uninterp spec fn div_bits(a: u32, b: u32) -> u32;

/// The bit pattern of the square root of the binary32 value with bit
/// pattern `a`.
pub uninterp spec fn sqrt_bits(a: u32) -> u32;

/// The bit pattern of the sine of the binary32 value with bit pattern `a`.
pub uninterp spec fn sin_bits(a: u32) -> u32;

/// The bit pattern of the cosine of the binary32 value with bit pattern `a`.
pub uninterp spec fn cos_bits(a: u32) -> u32;

/// The bit pattern of the tangent of the binary32 value with bit pattern `a`.
pub uninterp spec fn tan_bits(a: u32) -> u32;

/// The bit pattern of the binary32 value nearest to the unsigned integer `n`.
pub uninterp spec fn of_u32_bits(n: u32) -> u32;

/// Relies on rustc_apfloat's binary32 addition (round to nearest, ties to
/// even, as the hardware rounds): the result depends on the operand bit
/// patterns alone.
#[verifier::external_body]
pub fn fadd(a: u32, b: u32) -> (r: u32)
    ensures
        r == add_bits(a, b),
{
    (Single::from_bits(a as u128) + Single::from_bits(b as u128)).value.to_bits() as u32
}

/// Relies on rustc_apfloat's binary32 subtraction (round to nearest, ties to
/// even): the result depends on the operand bit patterns alone.
#[verifier::external_body]
pub fn fsub(a: u32, b: u32) -> (r: u32)
    ensures
        r == sub_bits(a, b),
{
    (Single::from_bits(a as u128) - Single::from_bits(b as u128)).value.to_bits() as u32
}

/// Relies on rustc_apfloat's binary32 multiplication (round to nearest, ties
/// to even): the result depends on the operand bit patterns alone.
#[verifier::external_body]
pub fn fmul(a: u32, b: u32) -> (r: u32)
    ensures
        r == mul_bits(a, b),
{
    (Single::from_bits(a as u128) * Single::from_bits(b as u128)).value.to_bits() as u32
}

/// Relies on rustc_apfloat's binary32 division (round to nearest, ties to
/// even; division by zero gives an infinity or a NaN, it does not fail):
/// the result depends on the operand bit patterns alone.
#[verifier::external_body]
pub fn fdiv(a: u32, b: u32) -> (r: u32)
    ensures
        r == div_bits(a, b),
{
    (Single::from_bits(a as u128) / Single::from_bits(b as u128)).value.to_bits() as u32
}

/// Relies on libm::sqrtf for the square root, and on bytemuck::cast to move
/// between a binary32 value and its bit pattern: the result depends on the
/// argument's bit pattern alone.
#[verifier::external_body]
pub fn fsqrt(a: u32) -> (r: u32)
    ensures
        r == sqrt_bits(a),
{
    bytemuck::cast::<_, u32>(libm::sqrtf(bytemuck::cast(a)))
}

/// Relies on libm::sinf for the sine, and on bytemuck::cast to move between
/// a binary32 value and its bit pattern: the result depends on the
/// argument's bit pattern alone.
#[verifier::external_body]
pub fn fsin(a: u32) -> (r: u32)
    ensures
        r == sin_bits(a),
{
    bytemuck::cast::<_, u32>(libm::sinf(bytemuck::cast(a)))
}

/// Relies on libm::cosf for the cosine, and on bytemuck::cast to move
/// between a binary32 value and its bit pattern: the result depends on the
/// argument's bit pattern alone.
#[verifier::external_body]
pub fn fcos(a: u32) -> (r: u32)
    ensures
        r == cos_bits(a),
{
    bytemuck::cast::<_, u32>(libm::cosf(bytemuck::cast(a)))
}

/// Relies on libm::tanf for the tangent, and on bytemuck::cast to move
/// between a binary32 value and its bit pattern: the result depends on the
/// argument's bit pattern alone.
#[verifier::external_body]
pub fn ftan(a: u32) -> (r: u32)
    ensures
        r == tan_bits(a),
{
    bytemuck::cast::<_, u32>(libm::tanf(bytemuck::cast(a)))
}

/// Relies on rustc_apfloat's unsigned-integer-to-binary32 conversion (round
/// to nearest, ties to even, as the language casts an unsigned integer to a
/// binary32 value): the result depends on the integer alone.
#[verifier::external_body]
pub fn ffrom_u32(n: u32) -> (r: u32)
    ensures
        r == of_u32_bits(n),
{
    Single::from_u128(n as u128).value.to_bits() as u32
}

/// Two binary32 patterns are approximately equal when the absolute value of
/// their difference is below the tolerance. A NaN anywhere makes the
/// comparison false.
pub open spec fn approx_eq_bits(a: u32, b: u32) -> bool {
    lt_bits(abs_bits(sub_bits(a, b)), TOL_BITS)
}

/// Approximate equality of two binary32 patterns: the absolute value of
/// their difference is below the tolerance.
pub fn fapprox_eq(a: u32, b: u32) -> (r: bool)
    ensures
        r == approx_eq_bits(a, b),
{
    flt(fabs(fsub(a, b)), TOL_BITS)
}

/// Negates a binary32 pattern by flipping its sign bit, which is how the
/// language negates such a value.
pub fn fneg(a: u32) -> (r: u32)
    ensures
        r == neg_bits(a),
{
    a ^ SIGN_MASK
}

/// Clears the sign bit of a binary32 pattern, which is how the standard
/// library takes the absolute value of such a value.
pub fn fabs(a: u32) -> (r: u32)
    ensures
        r == abs_bits(a),
{
    a & MAG_MASK
}

/// The ordered less-than comparison on binary32 patterns, as the language
/// compares such values: false when either operand is a NaN; the two zeros
/// equal; otherwise sign-magnitude order.
pub fn flt(a: u32, b: u32) -> (r: bool)
    ensures
        r == lt_bits(a, b),
{
    if a & EXP_MASK == EXP_MASK && a & FRAC_MASK != 0 {
        return false;
    }
    if b & EXP_MASK == EXP_MASK && b & FRAC_MASK != 0 {
        return false;
    }
    let a_neg: bool = a & SIGN_MASK != 0;
    let b_neg: bool = b & SIGN_MASK != 0;
    let a_mag: u32 = a & MAG_MASK;
    let b_mag: u32 = b & MAG_MASK;
    if a_neg && b_neg {
        b_mag < a_mag
    } else if !a_neg && !b_neg {
        a_mag < b_mag
    } else if a_neg {
        a_mag != 0 || b_mag != 0
    } else {
        false
    }
}

} // verus!
