//! The model of real arithmetic used throughout the crate.
//!
//! Verus cannot reason about IEEE-754 values directly, so a real number is
//! carried everywhere as the 64 bits of its double-precision encoding. The
//! primitive operations are performed by outside crates — `rustc_apfloat`
//! for the correctly-rounded arithmetic operations and remainder, `libm`
//! for sine and the power function — behind trusted wrappers. Each
//! operation's result is named by an uninterpreted spec function of the
//! operand bits: both crates compute deterministic functions of their
//! arguments, so the names are well defined.
use vstd::prelude::*;
use rustc_apfloat::Float;
use rustc_apfloat::ieee::Double;

verus! {

/// Bit pattern of +0.0.
pub const F_PZERO: u64 = 0x0000_0000_0000_0000;

/// Bit pattern of -0.0.
pub const F_NZERO: u64 = 0x8000_0000_0000_0000;

/// Bit pattern of 1.0.
pub const F_ONE: u64 = 0x3FF0_0000_0000_0000;

/// Bit pattern of 2.0.
pub const F_TWO: u64 = 0x4000_0000_0000_0000;

/// Bit pattern of 3.0.
pub const F_THREE: u64 = 0x4008_0000_0000_0000;

/// Bit pattern of two pi. Doubling a number scales its exponent field by
/// one, exactly, so this constant is also the product of `F_TWO` and the
/// nearest double to pi.
pub const F_TWO_PI: u64 = 0x4019_21FB_5444_2D18;

/// A bit pattern encodes a finite number when its exponent field is not
/// all ones (all ones encodes an infinity or a NaN).
pub open spec fn bits_finite(a: u64) -> bool {
    (a >> 52) & 0x7ff != 0x7ff
}

/// Negating a double flips its sign bit and nothing else.
pub open spec fn neg_bits(a: u64) -> u64 {
    a ^ 0x8000_0000_0000_0000
}

/// The sum of two doubles, rounded to nearest even, as bit patterns.
pub uninterp spec fn add_bits(a: u64, b: u64) -> u64;

/// The difference of two doubles, rounded to nearest even, as bit patterns.
pub uninterp spec fn sub_bits(a: u64, b: u64) -> u64;

/// The product of two doubles, rounded to nearest even, as bit patterns.
pub uninterp spec fn mul_bits(a: u64, b: u64) -> u64;

/// The quotient of two doubles, rounded to nearest even, as bit patterns.
pub uninterp spec fn div_bits(a: u64, b: u64) -> u64;

/// The remainder of two doubles with the sign of the dividend, as computed
/// by the C `fmod` operation (always exact), as bit patterns.
pub uninterp spec fn fmod_bits(a: u64, b: u64) -> u64;

/// The sine of a double, as bit patterns.
pub uninterp spec fn sin_bits(a: u64) -> u64;

/// A double raised to a double power, as bit patterns.
pub uninterp spec fn pow_bits(a: u64, b: u64) -> u64;

/// Negate a double carried as its bit pattern.
pub fn neg_f(a: u64) -> (r: u64)
    ensures
        r == neg_bits(a),
{
    a ^ 0x8000_0000_0000_0000
}

/// Relies on rustc_apfloat's IEEE double addition, rounding to nearest
/// even. Under that rounding a sum that is exactly zero is +0.0, except
/// that adding two like-signed zeroes keeps their sign; so +0.0 plus a
/// zero of either sign is +0.0.
#[verifier::external_body]
pub(crate) fn add_f(a: u64, b: u64) -> (r: u64)
    ensures
        r == add_bits(a, b),
        a == F_PZERO && (b == F_PZERO || b == F_NZERO) ==> r == F_PZERO,
{
    let x = Double::from_bits(a as u128);
    let y = Double::from_bits(b as u128);
    (x + y).value.to_bits() as u64
}

/// Relies on rustc_apfloat's IEEE double subtraction, rounding to nearest
/// even.
#[verifier::external_body]
pub(crate) fn sub_f(a: u64, b: u64) -> (r: u64)
    ensures
        r == sub_bits(a, b),
{
    let x = Double::from_bits(a as u128);
    let y = Double::from_bits(b as u128);
    (x - y).value.to_bits() as u64
}

/// Relies on rustc_apfloat's IEEE double multiplication, rounding to
/// nearest even. The product of a finite number and +0.0 is a zero whose
/// sign is the sign of the finite factor.
#[verifier::external_body]
pub(crate) fn mul_f(a: u64, b: u64) -> (r: u64)
    ensures
        r == mul_bits(a, b),
        bits_finite(a) && b == F_PZERO ==> r == F_PZERO || r == F_NZERO,
{
    let x = Double::from_bits(a as u128);
    let y = Double::from_bits(b as u128);
    (x * y).value.to_bits() as u64
}

/// Relies on rustc_apfloat's IEEE double division, rounding to nearest
/// even.
#[verifier::external_body]
pub(crate) fn div_f(a: u64, b: u64) -> (r: u64)
    ensures
        r == div_bits(a, b),
{
    let x = Double::from_bits(a as u128);
    let y = Double::from_bits(b as u128);
    (x / y).value.to_bits() as u64
}

/// Relies on rustc_apfloat's `c_fmod` (the `%` operator): the exact
/// remainder with the sign of the dividend, the same operation the host
/// language's `%` performs on doubles. A zero dividend with a nonzero
/// finite divisor is returned unchanged.
#[verifier::external_body]
pub(crate) fn fmod_f(a: u64, b: u64) -> (r: u64)
    ensures
        r == fmod_bits(a, b),
        a == F_PZERO && b == F_TWO_PI ==> r == F_PZERO,
{
    let x = Double::from_bits(a as u128);
    let y = Double::from_bits(b as u128);
    (x % y).value.to_bits() as u64
}

/// Relies on libm::sin: the sine of the operand, a deterministic function
/// of its bits. An argument of +0.0 is returned unchanged.
#[verifier::external_body]
pub(crate) fn sin_f(a: u64) -> (r: u64)
    ensures
        r == sin_bits(a),
        a == F_PZERO ==> r == F_PZERO,
{
    libm::sin(bytemuck::cast(a)).to_bits()
}

/// Relies on libm::pow: the first operand raised to the second, a
/// deterministic function of their bits.
#[verifier::external_body]
pub(crate) fn pow_f(a: u64, b: u64) -> (r: u64)
    ensures
        r == pow_bits(a, b),
{
    libm::pow(bytemuck::cast(a), bytemuck::cast(b)).to_bits()
}

} // verus!
