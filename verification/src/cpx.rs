//! Complex doubles, carried as a pair of bit patterns.
//!
//! The re and im fields hold the bits of the two IEEE 754 doubles of a
//! complex value. The transcendental work (complex exponential, division,
//! magnitude, argument) is done by num_complex through the trusted
//! wrappers below, each result named by an uninterpreted spec function of
//! the operand bits.

use core::primitive::f64 as Flt64;
use vstd::prelude::*;

verus! {

/// A complex double: the bits of its real and imaginary parts.
#[derive(Clone, Copy)]
pub struct ComplexBits {
    pub re: u64,
    pub im: u64,
}

/// The bits of e raised to the complex double with part bits `re`, `im`:
/// first the real part, then the imaginary part.
pub uninterp spec fn cexp_bits(re: u64, im: u64) -> (u64, u64);

/// The bits of the quotient of the complex doubles `(ar, ai)` and
/// `(br, bi)`: first the real part, then the imaginary part.
pub uninterp spec fn cdiv_bits(ar: u64, ai: u64, br: u64, bi: u64) -> (u64, u64);

/// The bits of the magnitude of the complex double with part bits
/// `re`, `im`.
pub uninterp spec fn norm_bits(re: u64, im: u64) -> u64;

/// The bits of the principal argument, in radians, of the complex double
/// with part bits `re`, `im`.
pub uninterp spec fn arg_bits(re: u64, im: u64) -> u64;

/// Relies on num_complex::Complex64::exp: the complex exponential is a
/// fixed function of the argument bits.
#[verifier::external_body]
pub(crate) fn cexp(re: u64, im: u64) -> (r: (u64, u64))
    ensures
        r == cexp_bits(re, im),
{
    let e = num_complex::Complex64::new(Flt64::from_bits(re), Flt64::from_bits(im)).exp();
    (e.re.to_bits(), e.im.to_bits())
}

/// Relies on num_complex's Div for Complex64: the quotient is a fixed
/// function of the operand bits, and a zero divisor gives non-finite
/// parts, never a panic.
#[verifier::external_body]
pub(crate) fn cdiv(ar: u64, ai: u64, br: u64, bi: u64) -> (r: (u64, u64))
    ensures
        r == cdiv_bits(ar, ai, br, bi),
{
    let a = num_complex::Complex64::new(Flt64::from_bits(ar), Flt64::from_bits(ai));
    let b = num_complex::Complex64::new(Flt64::from_bits(br), Flt64::from_bits(bi));
    let q = a / b;
    (q.re.to_bits(), q.im.to_bits())
}

/// Relies on num_complex::Complex64::norm, the hypotenuse of the two
/// parts: a fixed, non-negative function of the argument bits.
#[verifier::external_body]
pub(crate) fn cnorm(re: u64, im: u64) -> (r: u64)
    ensures
        r == norm_bits(re, im),
{
    num_complex::Complex64::new(Flt64::from_bits(re), Flt64::from_bits(im)).norm().to_bits()
}

/// Relies on num_complex::Complex64::arg, the two-argument arctangent of
/// the parts: a fixed function of the argument bits.
#[verifier::external_body]
pub(crate) fn carg(re: u64, im: u64) -> (r: u64)
    ensures
        r == arg_bits(re, im),
{
    num_complex::Complex64::new(Flt64::from_bits(re), Flt64::from_bits(im)).arg().to_bits()
}

} // verus!
