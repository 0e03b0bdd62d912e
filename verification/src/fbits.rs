//! IEEE-754 single-precision scalars, carried as their 32-bit patterns.
//!
//! Comparison, negation, and min/max are sign/magnitude manipulations of
//! the bit pattern and are implemented and verified here directly. The
//! rounding operations (addition, subtraction, multiplication, division,
//! square root, integer conversion) are deterministic functions of the bit
//! patterns alone; they are given uninterpreted names and performed by a
//! software floating-point library behind trusted wrappers.

use vstd::prelude::*;
use rustc_apfloat::Float;

verus! {

/// Bit of a single-precision pattern that holds the sign.
pub const SIGN_BIT: u32 = 0x8000_0000;

/// Pattern of +0.0.
pub const BITS_ZERO: u32 = 0;

/// Pattern of 1.0.
pub const BITS_ONE: u32 = 0x3F80_0000;

/// Pattern of 0.5.
pub const BITS_HALF: u32 = 0x3F00_0000;

/// Pattern of 2.0.
pub const BITS_TWO: u32 = 0x4000_0000;

/// Pattern of the largest finite single-precision value.
pub const BITS_GREATEST: u32 = 0x7F7F_FFFF;

/// Pattern of the smallest (most negative) finite single-precision value.
pub const BITS_LEAST: u32 = 0xFF7F_FFFF;

/// Total order on single-precision patterns: position of the encoded value
/// on the number line, as a signed magnitude. Both zero patterns sit at 0;
/// a pattern with the sign bit set orders below every pattern without it.
/// On data free of NaN patterns this order agrees with the IEEE-754
/// comparison of the encoded values.
pub open spec fn float_order(a: u32) -> int {
    if a < SIGN_BIT {
        a as int
    } else {
        -((a - SIGN_BIT) as int)
    }
}

pub open spec fn spec_float_le(a: u32, b: u32) -> bool {
    float_order(a) <= float_order(b)
}

/// The pattern encodes a finite value: it orders between the least and
/// greatest finite patterns, so it is neither an infinity nor a NaN.
pub open spec fn finite_bits(a: u32) -> bool {
    float_order(BITS_LEAST) <= float_order(a) <= float_order(BITS_GREATEST)
}

/// The smaller of two patterns under `float_order`; the first on ties.
pub open spec fn spec_float_min(a: u32, b: u32) -> u32 {
    if float_order(b) < float_order(a) {
        b
    } else {
        a
    }
}

/// The larger of two patterns under `float_order`; the first on ties.
pub open spec fn spec_float_max(a: u32, b: u32) -> u32 {
    if float_order(a) < float_order(b) {
        b
    } else {
        a
    }
}

/// The encoded value's negation: the same pattern with the sign flipped.
pub open spec fn neg_bits(a: u32) -> u32 {
    if a < SIGN_BIT {
        (a + SIGN_BIT) as u32
    } else {
        (a - SIGN_BIT) as u32
    }
}

pub fn float_le(a: u32, b: u32) -> (r: bool)
    ensures
        r == spec_float_le(a, b),
{
    if a >= SIGN_BIT && b >= SIGN_BIT {
        a >= b
    } else if a >= SIGN_BIT {
        true
    } else if b >= SIGN_BIT {
        a == 0 && b == SIGN_BIT
    } else {
        a <= b
    }
}

pub fn float_min(a: u32, b: u32) -> (r: u32)
    ensures
        r == spec_float_min(a, b),
{
    if float_le(a, b) {
        a
    } else {
        b
    }
}

pub fn float_max(a: u32, b: u32) -> (r: u32)
    ensures
        r == spec_float_max(a, b),
{
    if float_le(b, a) {
        a
    } else {
        b
    }
}

pub fn float_neg(a: u32) -> (r: u32)
    ensures
        r == neg_bits(a),
{
    if a < SIGN_BIT {
        a + SIGN_BIT
    } else {
        a - SIGN_BIT
    }
}

/// Pattern of the IEEE-754 single-precision sum of the encoded values,
/// rounded to nearest, ties to even.
pub uninterp spec fn add_bits(a: u32, b: u32) -> u32;

/// Pattern of the single-precision difference of the encoded values.
pub uninterp spec fn sub_bits(a: u32, b: u32) -> u32;

/// Pattern of the single-precision product of the encoded values.
pub uninterp spec fn mul_bits(a: u32, b: u32) -> u32;

/// Pattern of the single-precision quotient of the encoded values.
pub uninterp spec fn div_bits(a: u32, b: u32) -> u32;

/// Pattern of the single-precision square root of the encoded value.
pub uninterp spec fn sqrt_bits(a: u32) -> u32;

/// Pattern of the single-precision value nearest to the integer.
pub uninterp spec fn bits_of_u32(x: u32) -> u32;

/// Relies on const_soft_float's SoftF32::add: IEEE-754 single-precision
/// addition of the two encoded values, a pure function of the patterns.
#[verifier::external_body]
pub(crate) fn float_add(a: u32, b: u32) -> (r: u32)
    ensures
        r == add_bits(a, b),
{
    const_soft_float::soft_f32::SoftF32::from_bits(a)
        .add(const_soft_float::soft_f32::SoftF32::from_bits(b))
        .to_bits()
}

/// Relies on const_soft_float's SoftF32::sub: IEEE-754 single-precision
/// subtraction, a pure function of the patterns.
#[verifier::external_body]
pub(crate) fn float_sub(a: u32, b: u32) -> (r: u32)
    ensures
        r == sub_bits(a, b),
{
    const_soft_float::soft_f32::SoftF32::from_bits(a)
        .sub(const_soft_float::soft_f32::SoftF32::from_bits(b))
        .to_bits()
}

/// Relies on const_soft_float's SoftF32::mul: IEEE-754 single-precision
/// multiplication, a pure function of the patterns.
#[verifier::external_body]
pub(crate) fn float_mul(a: u32, b: u32) -> (r: u32)
    ensures
        r == mul_bits(a, b),
{
    const_soft_float::soft_f32::SoftF32::from_bits(a)
        .mul(const_soft_float::soft_f32::SoftF32::from_bits(b))
        .to_bits()
}

/// Relies on const_soft_float's SoftF32::div: IEEE-754 single-precision
/// division, a pure function of the patterns.
#[verifier::external_body]
pub(crate) fn float_div(a: u32, b: u32) -> (r: u32)
    ensures
        r == div_bits(a, b),
{
    const_soft_float::soft_f32::SoftF32::from_bits(a)
        .div(const_soft_float::soft_f32::SoftF32::from_bits(b))
        .to_bits()
}

/// Relies on const_soft_float's SoftF32::sqrt: IEEE-754 single-precision
/// square root, a pure function of the pattern.
#[verifier::external_body]
pub(crate) fn float_sqrt(a: u32) -> (r: u32)
    ensures
        r == sqrt_bits(a),
{
    const_soft_float::soft_f32::SoftF32::from_bits(a).sqrt().to_bits()
}

/// Relies on rustc_apfloat's Single::from_u128: conversion of an unsigned
/// integer to the nearest single-precision value, a pure function of the
/// integer.
#[verifier::external_body]
pub(crate) fn float_of_u32(x: u32) -> (r: u32)
    ensures
        r == bits_of_u32(x),
{
    rustc_apfloat::ieee::Single::from_u128(x as u128).value.to_bits() as u32
}

} // verus!
