//! Double- and single-precision scalars, carried as bit patterns.
//!
//! A `u64` stands for the IEEE 754 double with those bits, a `u32` for the
//! single. The arithmetic itself is done by the hardware through the
//! trusted wrappers below; each result is named by an uninterpreted spec
//! function of the operand bits. What the module states on its own, and
//! proves, is the bit-level classification of a word (non-finite,
//! subnormal) and the flush that zeroes such words.

use core::primitive::f32 as Flt32;
use core::primitive::f64 as Flt64;
use vstd::prelude::*;

verus! {

/// Bits of the double 1.0.
pub const F64_ONE: u64 = 0x3FF0_0000_0000_0000;

/// Bits of the double 2.0.
pub const F64_TWO: u64 = 0x4000_0000_0000_0000;

/// Bits of the double -1.0.
pub const F64_NEG_ONE: u64 = 0xBFF0_0000_0000_0000;

/// Bits of the double -2.0.
pub const F64_NEG_TWO: u64 = 0xC000_0000_0000_0000;

/// Bits of the double 0.0.
pub const F64_ZERO: u64 = 0;

/// Bits of the single 2.0.
pub const F32_TWO: u32 = 0x4000_0000;

/// Bits of the single 10.0.
pub const F32_TEN: u32 = 0x4120_0000;

/// Bits of the single 40.0.
pub const F32_FORTY: u32 = 0x4220_0000;

/// Bits of the single nearest pi.
pub const F32_PI: u32 = 0x4049_0FDB;

/// The bits of the sum of the doubles with bits `a` and `b`.
pub uninterp spec fn add_bits(a: u64, b: u64) -> u64;

/// The bits of the difference of the doubles with bits `a` and `b`.
pub uninterp spec fn sub_bits(a: u64, b: u64) -> u64;

/// The bits of the product of the doubles with bits `a` and `b`.
pub uninterp spec fn mul_bits(a: u64, b: u64) -> u64;

/// The bits of the quotient of the doubles with bits `a` and `b`.
pub uninterp spec fn div_bits(a: u64, b: u64) -> u64;

/// The bits of the sine of the double with bits `a`.
pub uninterp spec fn sin_bits(a: u64) -> u64;

/// The bits of the cosine of the double with bits `a`.
pub uninterp spec fn cos_bits(a: u64) -> u64;

/// The bits of the square root of the double with bits `a`.
pub uninterp spec fn sqrt_bits(a: u64) -> u64;

/// The bits of the product of the singles with bits `a` and `b`.
pub uninterp spec fn mul32_bits(a: u32, b: u32) -> u32;

/// The bits of the quotient of the singles with bits `a` and `b`.
pub uninterp spec fn div32_bits(a: u32, b: u32) -> u32;

/// The bits of the single with bits `a` raised to the single with bits `b`.
pub uninterp spec fn powf32_bits(a: u32, b: u32) -> u32;

/// The bits of the double nearest the single with bits `a` (the conversion
/// is exact: every single is a double).
pub uninterp spec fn widen_bits(a: u32) -> u64;

/// The bits of the single nearest the double with bits `a`.
pub uninterp spec fn narrow_bits(a: u64) -> u32;

/// Relies on f64 addition: the IEEE 754 sum is a fixed function of the
/// operand bits.
#[verifier::external_body]
pub(crate) fn add64(a: u64, b: u64) -> (r: u64)
    ensures
        r == add_bits(a, b),
{
    (Flt64::from_bits(a) + Flt64::from_bits(b)).to_bits()
}

/// Relies on f64 subtraction: the IEEE 754 difference is a fixed function
/// of the operand bits.
#[verifier::external_body]
pub(crate) fn sub64(a: u64, b: u64) -> (r: u64)
    ensures
        r == sub_bits(a, b),
{
    (Flt64::from_bits(a) - Flt64::from_bits(b)).to_bits()
}

/// Relies on f64 multiplication: the IEEE 754 product is a fixed function
/// of the operand bits.
#[verifier::external_body]
pub(crate) fn mul64(a: u64, b: u64) -> (r: u64)
    ensures
        r == mul_bits(a, b),
{
    (Flt64::from_bits(a) * Flt64::from_bits(b)).to_bits()
}

/// Relies on f64 division: the IEEE 754 quotient is a fixed function of
/// the operand bits. A zero divisor gives an infinity or a NaN, never a
/// panic.
#[verifier::external_body]
pub(crate) fn div64(a: u64, b: u64) -> (r: u64)
    ensures
        r == div_bits(a, b),
{
    (Flt64::from_bits(a) / Flt64::from_bits(b)).to_bits()
}

/// Relies on f64::sin: the result depends on the argument bits alone.
#[verifier::external_body]
pub(crate) fn sin64(a: u64) -> (r: u64)
    ensures
        r == sin_bits(a),
{
    Flt64::from_bits(a).sin().to_bits()
}

/// Relies on f64::cos: the result depends on the argument bits alone.
#[verifier::external_body]
pub(crate) fn cos64(a: u64) -> (r: u64)
    ensures
        r == cos_bits(a),
{
    Flt64::from_bits(a).cos().to_bits()
}

/// Relies on f64::sqrt: the IEEE 754 square root is a fixed function of
/// the argument bits.
#[verifier::external_body]
pub(crate) fn sqrt64(a: u64) -> (r: u64)
    ensures
        r == sqrt_bits(a),
{
    Flt64::from_bits(a).sqrt().to_bits()
}

/// Relies on f32 multiplication: the IEEE 754 product is a fixed function
/// of the operand bits.
#[verifier::external_body]
pub(crate) fn mul32(a: u32, b: u32) -> (r: u32)
    ensures
        r == mul32_bits(a, b),
{
    (Flt32::from_bits(a) * Flt32::from_bits(b)).to_bits()
}

/// Relies on f32 division: the IEEE 754 quotient is a fixed function of
/// the operand bits, and a zero divisor never panics.
#[verifier::external_body]
pub(crate) fn div32(a: u32, b: u32) -> (r: u32)
    ensures
        r == div32_bits(a, b),
{
    (Flt32::from_bits(a) / Flt32::from_bits(b)).to_bits()
}

/// Relies on f32::powf: the result depends on the argument bits alone.
#[verifier::external_body]
pub(crate) fn powf32(a: u32, b: u32) -> (r: u32)
    ensures
        r == powf32_bits(a, b),
{
    Flt32::from_bits(a).powf(Flt32::from_bits(b)).to_bits()
}

/// Relies on the f32-to-f64 cast, which is exact and total.
#[verifier::external_body]
pub(crate) fn widen32(a: u32) -> (r: u64)
    ensures
        r == widen_bits(a),
{
    Flt64::from(Flt32::from_bits(a)).to_bits()
}

/// Relies on the f64-to-f32 cast, which rounds to the nearest single and
/// never panics.
#[verifier::external_body]
pub(crate) fn narrow64(a: u64) -> (r: u32)
    ensures
        r == narrow_bits(a),
{
    (Flt64::from_bits(a) as Flt32).to_bits()
}

/// The bits of the negated double: IEEE 754 negation is exactly the sign
/// bit flipped.
pub open spec fn neg_bits(v: u64) -> u64 {
    v ^ 0x8000_0000_0000_0000
}

/// Flips the sign bit, negating the double with bits `v`.
pub(crate) fn neg64(v: u64) -> (r: u64)
    ensures
        r == neg_bits(v),
{
    v ^ 0x8000_0000_0000_0000
}

/// The exponent field of the double with bits `v` is all ones: the value
/// is an infinity or a NaN.
pub open spec fn is_non_finite(v: u64) -> bool {
    (v >> 52) & 0x7ff == 0x7ff
}

/// The exponent field is zero and the fraction field is not: the value is
/// subnormal.
pub open spec fn is_subnormal(v: u64) -> bool {
    (v >> 52) & 0x7ff == 0 && v & 0xf_ffff_ffff_ffff != 0
}

/// A flushed word: zero where the value is non-finite or subnormal, the
/// word itself everywhere else.
pub open spec fn flush_bits(v: u64) -> u64 {
    if is_non_finite(v) || is_subnormal(v) {
        0
    } else {
        v
    }
}

/// A word the flush lets stand: exactly zero, or finite and normal.
pub open spec fn flushed(v: u64) -> bool {
    v == 0 || (!is_non_finite(v) && !is_subnormal(v))
}

/// Zeroes a word whose value is non-finite or subnormal.
pub fn flush_word(v: u64) -> (r: u64)
    ensures
        r == flush_bits(v),
{
    let e: u64 = (v >> 52) & 0x7ff;
    let m: u64 = v & 0xf_ffff_ffff_ffff;
    if e == 0x7ff || (e == 0 && m != 0) {
        0
    } else {
        v
    }
}

/// A flushed word is exactly zero or a finite, normal value.
pub proof fn lemma_flush_sound(v: u64)
    ensures
        flushed(flush_bits(v)),
{
    assert((0u64 >> 52) & 0x7ff == 0) by (bit_vector);
    assert(0u64 & 0xf_ffff_ffff_ffff == 0) by (bit_vector);
}

/// Flushing twice is flushing once.
pub proof fn lemma_flush_idempotent(v: u64)
    ensures
        flush_bits(flush_bits(v)) == flush_bits(v),
{
    lemma_flush_sound(v);
}

} // verus!
