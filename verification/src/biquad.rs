//! The biquad filter: coefficient design and the recurrence engine.
//!
//! Coefficients and history words are IEEE 754 doubles carried as `u64`
//! bit patterns; samples are singles carried as `u32` bit patterns. Each
//! contract pins the stored or returned bits down to a composition of the
//! named arithmetic results of `crate::fp` and `crate::cpx`.
//!
//! The designers validate nothing, by policy: the formulas are total, so
//! every parameter yields six coefficients, and out-of-range parameters
//! (a cutoff at or past half the sample rate, a non-positive Q) give a
//! mathematically valid but perceptually meaningless or unstable filter.
//! The engine never fails either: it grows its history to the channels
//! handed in, and its end-of-pass flush keeps an unstable pass from
//! poisoning later blocks.

use vstd::prelude::*;

use crate::cpx;
use crate::cpx::{cexp_bits, cdiv_bits, ComplexBits};
use crate::fp;
use crate::fp::{
    add_bits, cos_bits, div32_bits, div_bits, flush_bits, mul32_bits, mul_bits, narrow_bits,
    neg_bits, powf32_bits, sin_bits, sqrt_bits, sub_bits, widen_bits, F32_FORTY, F32_PI, F32_TEN,
    F32_TWO, F64_NEG_ONE, F64_NEG_TWO, F64_ONE, F64_TWO, F64_ZERO,
};
use crate::Filter;

verus! {

/// The six coefficients of the transfer function
/// H(z) = (b0 + b1 z^-1 + b2 z^-2) / (a0 + a1 z^-1 + a2 z^-2),
/// each the bits of a double.
pub struct Coeffs {
    pub a0: u64,
    pub a1: u64,
    pub a2: u64,
    pub b0: u64,
    pub b1: u64,
    pub b2: u64,
}

/// One channel's delay line: the bits of the last two inputs and the last
/// two outputs, as doubles.
#[derive(Clone, Copy)]
pub struct ChanState {
    pub x1: u64,
    pub x2: u64,
    pub y1: u64,
    pub y2: u64,
}

/// The five coefficients of the recurrence once each is divided by a0.
#[derive(Clone, Copy)]
pub struct NormCoeffs {
    pub nb0: u64,
    pub nb1: u64,
    pub nb2: u64,
    pub na1: u64,
    pub na2: u64,
}

/// All-zero coefficients, the state of a fresh filter.
pub open spec fn zero_coeffs() -> Coeffs {
    Coeffs { a0: 0, a1: 0, a2: 0, b0: 0, b1: 0, b2: 0 }
}

/// An all-zero delay line.
pub open spec fn zero_state() -> ChanState {
    ChanState { x1: 0, x2: 0, y1: 0, y2: 0 }
}

/// The coefficients normalized by a0.
pub open spec fn spec_norm(c: Coeffs) -> NormCoeffs {
    NormCoeffs {
        nb0: div_bits(c.b0, c.a0),
        nb1: div_bits(c.b1, c.a0),
        nb2: div_bits(c.b2, c.a0),
        na1: div_bits(c.a1, c.a0),
        na2: div_bits(c.a2, c.a0),
    }
}

/// One step of the direct-form recurrence, in double precision:
/// y = b0' x + (b1' x1 + b2' x2) - (a1' y1 + a2' y2).
pub open spec fn spec_step_out(nc: NormCoeffs, st: ChanState, x: u64) -> u64 {
    sub_bits(
        add_bits(mul_bits(nc.nb0, x), add_bits(mul_bits(nc.nb1, st.x1), mul_bits(nc.nb2, st.x2))),
        add_bits(mul_bits(nc.na1, st.y1), mul_bits(nc.na2, st.y2)),
    )
}

/// The delay line after one step: the histories shift by one tap.
pub open spec fn spec_step_state(nc: NormCoeffs, st: ChanState, x: u64) -> ChanState {
    ChanState { x1: x, x2: st.x1, y1: spec_step_out(nc, st, x), y2: st.y1 }
}

/// Runs the recurrence over a channel's samples: each single is widened to
/// a double, filtered, and the output narrowed back. Returns the outputs
/// and the final delay line.
pub open spec fn spec_run(nc: NormCoeffs, st: ChanState, xs: Seq<u32>) -> (Seq<u32>, ChanState)
    decreases xs.len(),
{
    if xs.len() == 0 {
        (Seq::empty(), st)
    } else {
        let prev = spec_run(nc, st, xs.drop_last());
        let x = widen_bits(xs.last());
        (prev.0.push(narrow_bits(spec_step_out(nc, prev.1, x))), spec_step_state(nc, prev.1, x))
    }
}

/// The delay line that channel `i` starts from: its history slot, or an
/// all-zero line where none has been made yet.
pub open spec fn start_state(h: Seq<ChanState>, i: int) -> ChanState {
    if 0 <= i < h.len() {
        h[i]
    } else {
        zero_state()
    }
}

/// What processing channel `i` of a filter with coefficients `c` and
/// history `h` gives on samples `xs`: the outputs and the final delay
/// line, before the flush.
pub open spec fn channel_result(c: Coeffs, h: Seq<ChanState>, i: int, xs: Seq<u32>) -> (
    Seq<u32>,
    ChanState,
) {
    spec_run(spec_norm(c), start_state(h, i), xs)
}

/// A delay line with every non-finite or subnormal word zeroed.
pub open spec fn flush_state(st: ChanState) -> ChanState {
    ChanState {
        x1: flush_bits(st.x1),
        x2: flush_bits(st.x2),
        y1: flush_bits(st.y1),
        y2: flush_bits(st.y2),
    }
}

/// The normalized angular cutoff, in single precision widened to a
/// double: omega0 = 2 pi cutoff / sample_rate.
pub open spec fn spec_omega0(cutoff: u32, sample_rate: u32) -> u64 {
    widen_bits(div32_bits(mul32_bits(mul32_bits(F32_TWO, F32_PI), cutoff), sample_rate))
}

/// alpha = sin(omega0) / (2 Q), in double precision.
pub open spec fn spec_alpha(w0: u64, q: u32) -> u64 {
    div_bits(sin_bits(w0), mul_bits(F64_TWO, widen_bits(q)))
}

/// The gain amplitude A = 10^(gain / 40), computed in single precision
/// and widened to a double.
pub open spec fn spec_gain_amp(gain: u32) -> u64 {
    widen_bits(powf32_bits(F32_TEN, div32_bits(gain, F32_FORTY)))
}

/// The low-pass coefficients of the bilinear-transform cookbook.
pub open spec fn spec_lpf(cutoff: u32, q: u32, sample_rate: u32) -> Coeffs {
    let w0 = spec_omega0(cutoff, sample_rate);
    let al = spec_alpha(w0, q);
    let cw = cos_bits(w0);
    Coeffs {
        b0: div_bits(sub_bits(F64_ONE, cw), F64_TWO),
        b1: sub_bits(F64_ONE, cw),
        b2: div_bits(sub_bits(F64_ONE, cw), F64_TWO),
        a0: add_bits(F64_ONE, al),
        a1: mul_bits(F64_NEG_TWO, cw),
        a2: sub_bits(F64_ONE, al),
    }
}

/// The high-pass coefficients.
pub open spec fn spec_hpf(cutoff: u32, q: u32, sample_rate: u32) -> Coeffs {
    let w0 = spec_omega0(cutoff, sample_rate);
    let al = spec_alpha(w0, q);
    let cw = cos_bits(w0);
    Coeffs {
        b0: div_bits(add_bits(F64_ONE, cw), F64_TWO),
        b1: neg_bits(add_bits(F64_ONE, cw)),
        b2: div_bits(add_bits(F64_ONE, cw), F64_TWO),
        a0: add_bits(F64_ONE, al),
        a1: mul_bits(F64_NEG_TWO, cw),
        a2: sub_bits(F64_ONE, al),
    }
}

/// The band-pass coefficients (constant peak gain Q).
pub open spec fn spec_bpf(cutoff: u32, q: u32, sample_rate: u32) -> Coeffs {
    let w0 = spec_omega0(cutoff, sample_rate);
    let al = spec_alpha(w0, q);
    let cw = cos_bits(w0);
    Coeffs {
        b0: mul_bits(widen_bits(q), al),
        b1: F64_ZERO,
        b2: mul_bits(neg_bits(widen_bits(q)), al),
        a0: add_bits(F64_ONE, al),
        a1: mul_bits(F64_NEG_TWO, cw),
        a2: sub_bits(F64_ONE, al),
    }
}

/// The notch coefficients.
pub open spec fn spec_notch(cutoff: u32, q: u32, sample_rate: u32) -> Coeffs {
    let w0 = spec_omega0(cutoff, sample_rate);
    let al = spec_alpha(w0, q);
    let cw = cos_bits(w0);
    Coeffs {
        b0: F64_ONE,
        b1: mul_bits(F64_NEG_TWO, cw),
        b2: F64_ONE,
        a0: add_bits(F64_ONE, al),
        a1: mul_bits(F64_NEG_TWO, cw),
        a2: sub_bits(F64_ONE, al),
    }
}

/// The all-pass coefficients.
pub open spec fn spec_apf(cutoff: u32, q: u32, sample_rate: u32) -> Coeffs {
    let w0 = spec_omega0(cutoff, sample_rate);
    let al = spec_alpha(w0, q);
    let cw = cos_bits(w0);
    Coeffs {
        b0: sub_bits(F64_ONE, al),
        b1: mul_bits(F64_NEG_TWO, cw),
        b2: add_bits(F64_ONE, al),
        a0: add_bits(F64_ONE, al),
        a1: mul_bits(F64_NEG_TWO, cw),
        a2: sub_bits(F64_ONE, al),
    }
}

/// The bell (peaking) coefficients, with A = 10^(gain / 40).
pub open spec fn spec_bell(cutoff: u32, q: u32, gain: u32, sample_rate: u32) -> Coeffs {
    let amp = spec_gain_amp(gain);
    let w0 = spec_omega0(cutoff, sample_rate);
    let al = spec_alpha(w0, q);
    let cw = cos_bits(w0);
    Coeffs {
        b0: add_bits(F64_ONE, mul_bits(al, amp)),
        b1: mul_bits(F64_NEG_TWO, cw),
        b2: sub_bits(F64_ONE, mul_bits(al, amp)),
        a0: add_bits(F64_ONE, div_bits(al, amp)),
        a1: mul_bits(F64_NEG_TWO, cw),
        a2: sub_bits(F64_ONE, div_bits(al, amp)),
    }
}

/// The low-shelf coefficients.
pub open spec fn spec_low_shelf(cutoff: u32, q: u32, gain: u32, sample_rate: u32) -> Coeffs {
    let amp = spec_gain_amp(gain);
    let w0 = spec_omega0(cutoff, sample_rate);
    let al = spec_alpha(w0, q);
    let cw = cos_bits(w0);
    let ap1 = add_bits(amp, F64_ONE);
    let am1 = sub_bits(amp, F64_ONE);
    let tsa = mul_bits(mul_bits(F64_TWO, sqrt_bits(amp)), al);
    Coeffs {
        b0: mul_bits(amp, add_bits(sub_bits(ap1, mul_bits(am1, cw)), tsa)),
        b1: mul_bits(mul_bits(F64_TWO, amp), sub_bits(am1, mul_bits(ap1, cw))),
        b2: mul_bits(amp, sub_bits(sub_bits(ap1, mul_bits(am1, cw)), tsa)),
        a0: add_bits(sub_bits(ap1, mul_bits(am1, cw)), tsa),
        a1: mul_bits(F64_NEG_TWO, sub_bits(am1, mul_bits(ap1, cw))),
        a2: sub_bits(sub_bits(ap1, mul_bits(am1, cw)), tsa),
    }
}

/// The high-shelf coefficients.
pub open spec fn spec_high_shelf(cutoff: u32, q: u32, gain: u32, sample_rate: u32) -> Coeffs {
    let amp = spec_gain_amp(gain);
    let w0 = spec_omega0(cutoff, sample_rate);
    let al = spec_alpha(w0, q);
    let cw = cos_bits(w0);
    let ap1 = add_bits(amp, F64_ONE);
    let am1 = sub_bits(amp, F64_ONE);
    let tsa = mul_bits(mul_bits(F64_TWO, sqrt_bits(amp)), al);
    Coeffs {
        b0: mul_bits(amp, add_bits(add_bits(ap1, mul_bits(am1, cw)), tsa)),
        b1: mul_bits(mul_bits(F64_TWO, amp), add_bits(am1, mul_bits(ap1, cw))),
        b2: mul_bits(amp, sub_bits(add_bits(ap1, mul_bits(am1, cw)), tsa)),
        a0: add_bits(sub_bits(ap1, mul_bits(am1, cw)), tsa),
        a1: mul_bits(F64_NEG_TWO, sub_bits(am1, mul_bits(ap1, cw))),
        a2: sub_bits(sub_bits(ap1, mul_bits(am1, cw)), tsa),
    }
}

/// H(z) evaluated at z = e^(j omega), with omega = 2 pi f / sample_rate:
/// the complex ratio (b0 + b1 z1 + b2 z2) / (a0 + a1 z1 + a2 z2) where
/// z1 = e^(-j omega) and z2 = e^(-2 j omega).
pub open spec fn spec_transfer(c: Coeffs, f: u32, sample_rate: u32) -> ComplexBits {
    let w = spec_omega0(f, sample_rate);
    let z1 = cexp_bits(F64_ZERO, mul_bits(F64_NEG_ONE, w));
    let z2 = cexp_bits(F64_ZERO, mul_bits(F64_NEG_TWO, w));
    let nre = add_bits(add_bits(c.b0, mul_bits(c.b1, z1.0)), mul_bits(c.b2, z2.0));
    let nim = add_bits(mul_bits(c.b1, z1.1), mul_bits(c.b2, z2.1));
    let dre = add_bits(add_bits(c.a0, mul_bits(c.a1, z1.0)), mul_bits(c.a2, z2.0));
    let dim = add_bits(mul_bits(c.a1, z1.1), mul_bits(c.a2, z2.1));
    let q = cdiv_bits(nre, nim, dre, dim);
    ComplexBits { re: q.0, im: q.1 }
}

/// A biquad filter: six coefficients and one delay line per channel. The
/// history grows with the number of channels a processing call hands in.
pub struct Biquad {
    history: Vec<ChanState>,
    a0: u64,
    a1: u64,
    a2: u64,
    b0: u64,
    b1: u64,
    b2: u64,
}

impl Default for Biquad {
    /// A fresh filter: zeroed coefficients, no channel history yet.
    fn default() -> (r: Biquad)
        ensures
            r.coeffs() == zero_coeffs(),
            r.hist() == Seq::<ChanState>::empty(),
    {
        Biquad { history: Vec::new(), a0: 0, a1: 0, a2: 0, b0: 0, b1: 0, b2: 0 }
    }
}

/// omega0 = 2 pi cutoff / sample_rate.
fn omega0(cutoff: u32, sample_rate: u32) -> (r: u64)
    ensures
        r == spec_omega0(cutoff, sample_rate),
{
    fp::widen32(fp::div32(fp::mul32(fp::mul32(F32_TWO, F32_PI), cutoff), sample_rate))
}

/// alpha = sin(omega0) / (2 Q).
fn alpha_of(w0: u64, q: u32) -> (r: u64)
    ensures
        r == spec_alpha(w0, q),
{
    fp::div64(fp::sin64(w0), fp::mul64(F64_TWO, fp::widen32(q)))
}

/// A = 10^(gain / 40).
fn gain_amp(gain: u32) -> (r: u64)
    ensures
        r == spec_gain_amp(gain),
{
    fp::widen32(fp::powf32(F32_TEN, fp::div32(gain, F32_FORTY)))
}

impl Biquad {
    /// A fresh filter: zeroed coefficients, no channel history yet.
    pub fn new() -> (r: Self)
        ensures
            r.coeffs() == zero_coeffs(),
            r.hist() == Seq::<ChanState>::empty(),
    {
        Self::default()
    }

    /// Configures the filter as a low-pass: overwrites the coefficients by
    /// the cookbook formulas and leaves the history untouched.
    pub fn lpf(&mut self, cutoff: u32, q: u32, sample_rate: u32)
        ensures
            final(self).coeffs() == spec_lpf(cutoff, q, sample_rate),
            final(self).hist() == old(self).hist(),
    {
        let w0 = omega0(cutoff, sample_rate);
        let al = alpha_of(w0, q);
        let cw = fp::cos64(w0);
        let omc = fp::sub64(F64_ONE, cw);
        self.b0 = fp::div64(omc, F64_TWO);
        self.b1 = omc;
        self.b2 = fp::div64(omc, F64_TWO);
        self.a0 = fp::add64(F64_ONE, al);
        self.a1 = fp::mul64(F64_NEG_TWO, cw);
        self.a2 = fp::sub64(F64_ONE, al);
    }

    /// Configures the filter as a high-pass; history is untouched.
    pub fn hpf(&mut self, cutoff: u32, q: u32, sample_rate: u32)
        ensures
            final(self).coeffs() == spec_hpf(cutoff, q, sample_rate),
            final(self).hist() == old(self).hist(),
    {
        let w0 = omega0(cutoff, sample_rate);
        let al = alpha_of(w0, q);
        let cw = fp::cos64(w0);
        let opc = fp::add64(F64_ONE, cw);
        self.b0 = fp::div64(opc, F64_TWO);
        self.b1 = fp::neg64(opc);
        self.b2 = fp::div64(opc, F64_TWO);
        self.a0 = fp::add64(F64_ONE, al);
        self.a1 = fp::mul64(F64_NEG_TWO, cw);
        self.a2 = fp::sub64(F64_ONE, al);
    }

    /// Configures the filter as a band-pass; history is untouched.
    pub fn bpf(&mut self, cutoff: u32, q: u32, sample_rate: u32)
        ensures
            final(self).coeffs() == spec_bpf(cutoff, q, sample_rate),
            final(self).hist() == old(self).hist(),
    {
        let w0 = omega0(cutoff, sample_rate);
        let al = alpha_of(w0, q);
        let cw = fp::cos64(w0);
        let qw = fp::widen32(q);
        self.b0 = fp::mul64(qw, al);
        self.b1 = F64_ZERO;
        self.b2 = fp::mul64(fp::neg64(qw), al);
        self.a0 = fp::add64(F64_ONE, al);
        self.a1 = fp::mul64(F64_NEG_TWO, cw);
        self.a2 = fp::sub64(F64_ONE, al);
    }

    /// Configures the filter as a notch; history is untouched.
    pub fn notch(&mut self, cutoff: u32, q: u32, sample_rate: u32)
        ensures
            final(self).coeffs() == spec_notch(cutoff, q, sample_rate),
            final(self).hist() == old(self).hist(),
    {
        let w0 = omega0(cutoff, sample_rate);
        let al = alpha_of(w0, q);
        let cw = fp::cos64(w0);
        self.b0 = F64_ONE;
        self.b1 = fp::mul64(F64_NEG_TWO, cw);
        self.b2 = F64_ONE;
        self.a0 = fp::add64(F64_ONE, al);
        self.a1 = fp::mul64(F64_NEG_TWO, cw);
        self.a2 = fp::sub64(F64_ONE, al);
    }

    /// Configures the filter as an all-pass; history is untouched.
    pub fn apf(&mut self, cutoff: u32, q: u32, sample_rate: u32)
        ensures
            final(self).coeffs() == spec_apf(cutoff, q, sample_rate),
            final(self).hist() == old(self).hist(),
    {
        let w0 = omega0(cutoff, sample_rate);
        let al = alpha_of(w0, q);
        let cw = fp::cos64(w0);
        self.b0 = fp::sub64(F64_ONE, al);
        self.b1 = fp::mul64(F64_NEG_TWO, cw);
        self.b2 = fp::add64(F64_ONE, al);
        self.a0 = fp::add64(F64_ONE, al);
        self.a1 = fp::mul64(F64_NEG_TWO, cw);
        self.a2 = fp::sub64(F64_ONE, al);
    }

    /// Configures the filter as a bell (peaking) equalizer with the gain
    /// in decibels; history is untouched.
    pub fn bell(&mut self, cutoff: u32, q: u32, gain: u32, sample_rate: u32)
        ensures
            final(self).coeffs() == spec_bell(cutoff, q, gain, sample_rate),
            final(self).hist() == old(self).hist(),
    {
        let amp = gain_amp(gain);
        let w0 = omega0(cutoff, sample_rate);
        let al = alpha_of(w0, q);
        let cw = fp::cos64(w0);
        self.b0 = fp::add64(F64_ONE, fp::mul64(al, amp));
        self.b1 = fp::mul64(F64_NEG_TWO, cw);
        self.b2 = fp::sub64(F64_ONE, fp::mul64(al, amp));
        self.a0 = fp::add64(F64_ONE, fp::div64(al, amp));
        self.a1 = fp::mul64(F64_NEG_TWO, cw);
        self.a2 = fp::sub64(F64_ONE, fp::div64(al, amp));
    }

    /// Configures the filter as a low shelf with the gain in decibels;
    /// history is untouched.
    pub fn low_shelf(&mut self, cutoff: u32, q: u32, gain: u32, sample_rate: u32)
        ensures
            final(self).coeffs() == spec_low_shelf(cutoff, q, gain, sample_rate),
            final(self).hist() == old(self).hist(),
    {
        let amp = gain_amp(gain);
        let w0 = omega0(cutoff, sample_rate);
        let al = alpha_of(w0, q);
        let cw = fp::cos64(w0);
        let ap1 = fp::add64(amp, F64_ONE);
        let am1 = fp::sub64(amp, F64_ONE);
        let tsa = fp::mul64(fp::mul64(F64_TWO, fp::sqrt64(amp)), al);
        let lo = fp::sub64(ap1, fp::mul64(am1, cw));
        let hi = fp::sub64(am1, fp::mul64(ap1, cw));
        self.b0 = fp::mul64(amp, fp::add64(lo, tsa));
        self.b1 = fp::mul64(fp::mul64(F64_TWO, amp), hi);
        self.b2 = fp::mul64(amp, fp::sub64(lo, tsa));
        self.a0 = fp::add64(lo, tsa);
        self.a1 = fp::mul64(F64_NEG_TWO, hi);
        self.a2 = fp::sub64(lo, tsa);
    }

    /// Configures the filter as a high shelf with the gain in decibels;
    /// history is untouched.
    pub fn high_shelf(&mut self, cutoff: u32, q: u32, gain: u32, sample_rate: u32)
        ensures
            final(self).coeffs() == spec_high_shelf(cutoff, q, gain, sample_rate),
            final(self).hist() == old(self).hist(),
    {
        let amp = gain_amp(gain);
        let w0 = omega0(cutoff, sample_rate);
        let al = alpha_of(w0, q);
        let cw = fp::cos64(w0);
        let ap1 = fp::add64(amp, F64_ONE);
        let am1 = fp::sub64(amp, F64_ONE);
        let tsa = fp::mul64(fp::mul64(F64_TWO, fp::sqrt64(amp)), al);
        let lo = fp::sub64(ap1, fp::mul64(am1, cw));
        let hip = fp::add64(ap1, fp::mul64(am1, cw));
        let hi = fp::sub64(am1, fp::mul64(ap1, cw));
        self.b0 = fp::mul64(amp, fp::add64(hip, tsa));
        self.b1 = fp::mul64(fp::mul64(F64_TWO, amp), fp::add64(am1, fp::mul64(ap1, cw)));
        self.b2 = fp::mul64(amp, fp::sub64(hip, tsa));
        self.a0 = fp::add64(lo, tsa);
        self.a1 = fp::mul64(F64_NEG_TWO, hi);
        self.a2 = fp::sub64(lo, tsa);
    }
}

/// Zeroes every non-finite or subnormal word of a delay line.
fn flush_chan(st: ChanState) -> (r: ChanState)
    ensures
        r == flush_state(st),
{
    ChanState {
        x1: fp::flush_word(st.x1),
        x2: fp::flush_word(st.x2),
        y1: fp::flush_word(st.y1),
        y2: fp::flush_word(st.y2),
    }
}

/// Runs the recurrence over one channel: widens each sample, applies one
/// step, narrows the output, and shifts the delay line.
fn process_channel(nc: &NormCoeffs, ch: &Vec<u32>, st0: ChanState) -> (r: (Vec<u32>, ChanState))
    ensures
        r.0@ == spec_run(*nc, st0, ch@).0,
        r.1 == spec_run(*nc, st0, ch@).1,
{
    let mut out: Vec<u32> = Vec::new();
    let mut st = st0;
    let mut i: usize = 0;
    while i < ch.len()
        invariant
            i <= ch.len(),
            out@ == spec_run(*nc, st0, ch@.take(i as int)).0,
            st == spec_run(*nc, st0, ch@.take(i as int)).1,
        decreases ch.len() - i,
    {
        let x = fp::widen32(ch[i]);
        let t0 = fp::mul64(nc.nb0, x);
        let t1 = fp::mul64(nc.nb1, st.x1);
        let t2 = fp::mul64(nc.nb2, st.x2);
        let f1 = fp::mul64(nc.na1, st.y1);
        let f2 = fp::mul64(nc.na2, st.y2);
        let y = fp::sub64(fp::add64(t0, fp::add64(t1, t2)), fp::add64(f1, f2));
        out.push(fp::narrow64(y));
        st = ChanState { x1: x, x2: st.x1, y1: y, y2: st.y1 };
        proof {
            let i1 = i as int + 1;
            assert(ch@.take(i1).drop_last() =~= ch@.take(i as int));
            assert(ch@.take(i1).last() == ch@[i as int]);
        }
        i += 1;
    }
    proof {
        assert(ch@.take(ch.len() as int) =~= ch@);
    }
    (out, st)
}

impl Filter for Biquad {
    closed spec fn coeffs(&self) -> Coeffs {
        Coeffs {
            a0: self.a0,
            a1: self.a1,
            a2: self.a2,
            b0: self.b0,
            b1: self.b1,
            b2: self.b2,
        }
    }

    closed spec fn hist(&self) -> Seq<ChanState> {
        self.history@
    }

    fn process(&mut self, data: &mut Vec<Vec<u32>>) {
        let nc = NormCoeffs {
            nb0: fp::div64(self.b0, self.a0),
            nb1: fp::div64(self.b1, self.a0),
            nb2: fp::div64(self.b2, self.a0),
            na1: fp::div64(self.a1, self.a0),
            na2: fp::div64(self.a2, self.a0),
        };
        let n = data.len();
        let mut out: Vec<Vec<u32>> = Vec::new();
        let mut new_hist: Vec<ChanState> = Vec::new();
        let mut i: usize = 0;
        while i < n
            invariant
                i <= n,
                n == data@.len(),
                *data == *old(data),
                *self == *old(self),
                nc == spec_norm(old(self).coeffs()),
                out@.len() == i,
                new_hist@.len() == i,
                forall|k: int|
                    0 <= k < i ==> (#[trigger] out@[k])@ == channel_result(
                        old(self).coeffs(),
                        old(self).hist(),
                        k,
                        old(data)@[k]@,
                    ).0,
                forall|k: int|
                    0 <= k < i ==> #[trigger] new_hist@[k] == flush_state(
                        channel_result(
                            old(self).coeffs(),
                            old(self).hist(),
                            k,
                            old(data)@[k]@,
                        ).1,
                    ),
            decreases n - i,
        {
            let st0 = if i < self.history.len() {
                self.history[i]
            } else {
                ChanState { x1: 0, x2: 0, y1: 0, y2: 0 }
            };
            let r = process_channel(&nc, &data[i], st0);
            out.push(r.0);
            new_hist.push(flush_chan(r.1));
            i += 1;
        }
        let mut j: usize = n;
        while j < self.history.len()
            invariant
                n <= j,
                j <= self.history.len() || j == n,
                n == old(data)@.len(),
                *self == *old(self),
                new_hist@.len() == j,
                forall|k: int|
                    0 <= k < n ==> #[trigger] new_hist@[k] == flush_state(
                        channel_result(
                            old(self).coeffs(),
                            old(self).hist(),
                            k,
                            old(data)@[k]@,
                        ).1,
                    ),
                forall|k: int| n <= k < j ==> #[trigger] new_hist@[k] == old(self).hist()[k],
            decreases self.history.len() - j,
        {
            new_hist.push(self.history[j]);
            j += 1;
        }
        self.history = new_hist;
        *data = out;
    }

    fn transfer_function(&self, f: u32, sample_rate: u32) -> (r: ComplexBits) {
        let w = omega0(f, sample_rate);
        let z1 = cpx::cexp(F64_ZERO, fp::mul64(F64_NEG_ONE, w));
        let z2 = cpx::cexp(F64_ZERO, fp::mul64(F64_NEG_TWO, w));
        let nre = fp::add64(fp::add64(self.b0, fp::mul64(self.b1, z1.0)), fp::mul64(self.b2, z2.0));
        let nim = fp::add64(fp::mul64(self.b1, z1.1), fp::mul64(self.b2, z2.1));
        let dre = fp::add64(fp::add64(self.a0, fp::mul64(self.a1, z1.0)), fp::mul64(self.a2, z2.0));
        let dim = fp::add64(fp::mul64(self.a1, z1.1), fp::mul64(self.a2, z2.1));
        let q = cpx::cdiv(nre, nim, dre, dim);
        ComplexBits { re: q.0, im: q.1 }
    }

    fn bandwidth(&self, sample_rate: u32) -> (r: Option<u32>) {
        None
    }
}

/// Round-trip determinism: with the same coefficients, the same starting
/// history and the same input samples, a processing pass gives the same
/// outputs and the same final delay line, bit for bit.
pub proof fn lemma_round_trip_determinism(
    c: Coeffs,
    h: Seq<ChanState>,
    i: int,
    xs: Seq<u32>,
    ys: Seq<u32>,
)
    requires
        xs == ys,
    ensures
        channel_result(c, h, i, xs) == channel_result(c, h, i, ys),
{
}

/// The flush is sound and idempotent: every word it leaves in a delay
/// line is exactly zero or a normal, finite value, and flushing a flushed
/// line changes nothing.
pub proof fn lemma_flush_state_sound(st: ChanState)
    ensures
        fp::flushed(flush_state(st).x1),
        fp::flushed(flush_state(st).x2),
        fp::flushed(flush_state(st).y1),
        fp::flushed(flush_state(st).y2),
        flush_state(flush_state(st)) == flush_state(st),
{
    fp::lemma_flush_sound(st.x1);
    fp::lemma_flush_sound(st.x2);
    fp::lemma_flush_sound(st.y1);
    fp::lemma_flush_sound(st.y2);
    fp::lemma_flush_idempotent(st.x1);
    fp::lemma_flush_idempotent(st.x2);
    fp::lemma_flush_idempotent(st.y1);
    fp::lemma_flush_idempotent(st.y2);
}

/// The impulse response matches direct substitution into the recurrence:
/// on a fresh channel, the first three outputs of the unit impulse
/// (1.0, 0.0, 0.0) are exactly the three step results of the direct-form
/// recurrence, each narrowed to a single.
pub proof fn lemma_impulse_response(c: Coeffs)
    ensures
        ({
            let nc = spec_norm(c);
            let x0 = widen_bits(0x3F80_0000u32);
            let xz = widen_bits(0u32);
            let y0 = spec_step_out(nc, zero_state(), x0);
            let st1 = ChanState { x1: x0, x2: 0, y1: y0, y2: 0 };
            let y1 = spec_step_out(nc, st1, xz);
            let st2 = ChanState { x1: xz, x2: x0, y1: y1, y2: y0 };
            let y2 = spec_step_out(nc, st2, xz);
            channel_result(c, Seq::empty(), 0, seq![0x3F80_0000u32, 0u32, 0u32]).0 =~= seq![
                narrow_bits(y0),
                narrow_bits(y1),
                narrow_bits(y2),
            ]
        }),
{
    let nc = spec_norm(c);
    let z = zero_state();
    let x0 = widen_bits(0x3F80_0000u32);
    let xz = widen_bits(0u32);
    let y0 = spec_step_out(nc, z, x0);
    let st1 = ChanState { x1: x0, x2: 0, y1: y0, y2: 0 };
    let y1 = spec_step_out(nc, st1, xz);
    let st2 = ChanState { x1: xz, x2: x0, y1: y1, y2: y0 };
    let s3 = seq![0x3F80_0000u32, 0u32, 0u32];
    let s2 = seq![0x3F80_0000u32, 0u32];
    let s1 = seq![0x3F80_0000u32];
    let s0 = Seq::<u32>::empty();
    assert(s3.drop_last() =~= s2);
    assert(s2.drop_last() =~= s1);
    assert(s1.drop_last() =~= s0);
    assert(start_state(Seq::empty(), 0) == z);
    assert(spec_run(nc, z, s0) == (Seq::<u32>::empty(), z));
    assert(spec_run(nc, z, s1).1 == spec_step_state(nc, z, x0));
    assert(spec_step_state(nc, z, x0) == st1);
    assert(spec_run(nc, z, s1).0 =~= seq![narrow_bits(y0)]);
    assert(spec_run(nc, z, s2).1 == spec_step_state(nc, st1, xz));
    assert(spec_step_state(nc, st1, xz) == st2);
    assert(spec_run(nc, z, s2).0 =~= seq![narrow_bits(y0), narrow_bits(y1)]);
    assert(spec_run(nc, z, s3).0 =~= seq![
        narrow_bits(y0),
        narrow_bits(y1),
        narrow_bits(spec_step_out(nc, st2, xz)),
    ]);
}

} // verus!
