//! IEEE 754 binary32 arithmetic on raw bit patterns.
//!
//! Field samples are carried as `u32` bit patterns throughout the crate.
//! The three operations the integration kernel needs are performed by the
//! `rustc_apfloat` software implementation of IEEE 754, which works on the
//! bit patterns directly.  Each operation is deterministic: the result's
//! bit pattern is a function of the operands' bit patterns alone, which is
//! what the uninterpreted names below stand for.
use rustc_apfloat::Float;
use rustc_apfloat::ieee::Single;
use vstd::prelude::*;

verus! {

/// The bit pattern of `+0.0`, the value every divergence cell starts from.
pub const ZERO_BITS: u32 = 0;

/// The bit pattern of `0.5`, the weight of a centered difference.
pub const HALF_BITS: u32 = 0x3F00_0000;

/// The bit pattern of the binary32 sum of two values given by their bit
/// patterns, rounding to nearest even.
pub uninterp spec fn add_bits(a: u32, b: u32) -> u32;

/// The bit pattern of the binary32 difference of two values given by their
/// bit patterns, rounding to nearest even.
pub uninterp spec fn sub_bits(a: u32, b: u32) -> u32;

/// The bit pattern of the binary32 product of two values given by their bit
/// patterns, rounding to nearest even.
pub uninterp spec fn mul_bits(a: u32, b: u32) -> u32;

/// Relies on `rustc_apfloat::ieee::Single`: `from_bits`, the `Add`
/// implementation (rounding to nearest even) and `to_bits`.  The sum's bit
/// pattern depends on the operands' bit patterns alone.
#[verifier::external_body]
pub(crate) fn f_add(a: u32, b: u32) -> (r: u32)
    ensures
        r == add_bits(a, b),
{
    (Single::from_bits(a as u128) + Single::from_bits(b as u128)).value.to_bits() as u32
}

/// Relies on `rustc_apfloat::ieee::Single`: `from_bits`, the `Sub`
/// implementation (rounding to nearest even) and `to_bits`.  The
/// difference's bit pattern depends on the operands' bit patterns alone.
#[verifier::external_body]
pub(crate) fn f_sub(a: u32, b: u32) -> (r: u32)
    ensures
        r == sub_bits(a, b),
{
    (Single::from_bits(a as u128) - Single::from_bits(b as u128)).value.to_bits() as u32
}

/// Relies on `rustc_apfloat::ieee::Single`: `from_bits`, the `Mul`
/// implementation (rounding to nearest even) and `to_bits`.  The product's
/// bit pattern depends on the operands' bit patterns alone.
#[verifier::external_body]
pub(crate) fn f_mul(a: u32, b: u32) -> (r: u32)
    ensures
        r == mul_bits(a, b),
{
    (Single::from_bits(a as u128) * Single::from_bits(b as u128)).value.to_bits() as u32
}

} // verus!
