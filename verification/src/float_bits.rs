//! Single-precision float arithmetic on IEEE-754 bit patterns.
//!
//! The learner's weights, gradients and predictions are 32-bit floats, but
//! they travel through this crate as their raw bit patterns in `u32` slots.
//! Each arithmetic step the learner takes is one of the primitives below: a
//! trusted call into `rustc_apfloat`'s IEEE-754 binary32 arithmetic
//! (round-to-nearest-even, the rounding every hardware float unit applies),
//! bits in and bits out.  The result of each operation is given a name (an
//! uninterpreted spec function), so that a caller's contract can pin the
//! exact value computed without restating IEEE-754 rounding; beside each
//! name stand only the few exact identities that the contracts upstream
//! need.

use rustc_apfloat::Float;
use vstd::prelude::*;

verus! {

/// Bit pattern of 1.0 as a 32-bit float.
pub const ONE_BITS: u32 = 0x3F80_0000;

/// Bit pattern of 0.5 as a 32-bit float.
pub const HALF_BITS: u32 = 0x3F00_0000;

/// Bit pattern of 0.0 as a 32-bit float.
pub const ZERO_BITS: u32 = 0;

/// The bits of the binary32 sum of two binary32 values given as bits.
pub uninterp spec fn spec_fadd(a: u32, b: u32) -> u32;

/// The bits of the binary32 difference of two binary32 values given as bits.
pub uninterp spec fn spec_fsub(a: u32, b: u32) -> u32;

/// The bits of the binary32 product of two binary32 values given as bits.
pub uninterp spec fn spec_fmul(a: u32, b: u32) -> u32;

/// The bits of the negation of a binary32 value given as bits.
pub uninterp spec fn spec_fneg(a: u32) -> u32;

/// The bits of the binary32 value nearest to an unsigned 32-bit integer.
pub uninterp spec fn spec_u32_to_float(v: u32) -> u32;

/// Relies on `rustc_apfloat::ieee::Single` addition: the IEEE-754
/// round-to-nearest-even sum, bit-identical to hardware float addition.
/// The stated identity is exact: `+0.0 + +0.0 == +0.0`.
#[verifier::external_body]
pub(crate) fn fadd(a: u32, b: u32) -> (r: u32)
    ensures
        r == spec_fadd(a, b),
        a == ZERO_BITS && b == ZERO_BITS ==> r == ZERO_BITS,
{
    let x = rustc_apfloat::ieee::Single::from_bits(a as u128);
    let y = rustc_apfloat::ieee::Single::from_bits(b as u128);
    (x + y).value.to_bits() as u32
}

/// Relies on `rustc_apfloat::ieee::Single` subtraction: the IEEE-754
/// round-to-nearest-even difference, bit-identical to hardware.
#[verifier::external_body]
pub(crate) fn fsub(a: u32, b: u32) -> (r: u32)
    ensures
        r == spec_fsub(a, b),
{
    let x = rustc_apfloat::ieee::Single::from_bits(a as u128);
    let y = rustc_apfloat::ieee::Single::from_bits(b as u128);
    (x - y).value.to_bits() as u32
}

/// Relies on `rustc_apfloat::ieee::Single` multiplication: the IEEE-754
/// round-to-nearest-even product, bit-identical to hardware.
#[verifier::external_body]
pub(crate) fn fmul(a: u32, b: u32) -> (r: u32)
    ensures
        r == spec_fmul(a, b),
{
    let x = rustc_apfloat::ieee::Single::from_bits(a as u128);
    let y = rustc_apfloat::ieee::Single::from_bits(b as u128);
    (x * y).value.to_bits() as u32
}

/// Relies on `rustc_apfloat::ieee::Single` negation, which flips the sign
/// bit and nothing else.
#[verifier::external_body]
pub(crate) fn fneg(a: u32) -> (r: u32)
    ensures
        r == spec_fneg(a),
{
    (-rustc_apfloat::ieee::Single::from_bits(a as u128)).to_bits() as u32
}

/// Relies on `rustc_apfloat::ieee::Single::from_u128`: the integer rounded
/// to the nearest binary32 value, as Rust's integer-to-float cast rounds;
/// it is exact for 0 and 1.
#[verifier::external_body]
pub(crate) fn u32_to_float_bits(v: u32) -> (r: u32)
    ensures
        r == spec_u32_to_float(v),
        v == 0 ==> r == ZERO_BITS,
        v == 1 ==> r == ONE_BITS,
{
    rustc_apfloat::ieee::Single::from_u128(v as u128).value.to_bits() as u32
}

} // verus!
