//! A second-order recursive (biquad) digital filter.
//!
//! Samples and coefficients are IEEE 754 values carried as their bit
//! patterns (`u32` for single precision, `u64` for double precision), so
//! that every contract can speak of them as plain integers. The arithmetic
//! itself runs on the hardware and on num_complex through the trusted
//! wrappers of `fp` and `cpx`; everything around it — the recurrence, the
//! history shifts, the denormal flush, the coefficient formulas — is
//! verified against the named results of those operations.

use vstd::prelude::*;

pub mod biquad;
pub mod cpx;
pub mod fp;

pub use biquad::Biquad;

use biquad::{channel_result, flush_state, spec_transfer, ChanState, Coeffs};
use cpx::{arg_bits, norm_bits, ComplexBits};
use fp::narrow_bits;

verus! {

/// A stateful per-channel filter with a rational transfer function.
pub trait Filter {
    /// The six transfer-function coefficients the filter holds.
    spec fn coeffs(&self) -> Coeffs;

    /// The per-channel delay lines the filter holds.
    spec fn hist(&self) -> Seq<ChanState>;

    /// Filters every channel's samples in place: channel `i` starts from
    /// history slot `i` (a zero line where none exists yet), each output
    /// is the direct-form recurrence with the coefficients normalized by
    /// a0, and the slot is left holding the flushed final delay line, so
    /// no non-finite or subnormal word survives a pass. Slots beyond the
    /// channels handed in are untouched; the history grows to the number
    /// of channels where it was shorter.
    fn process(&mut self, data: &mut Vec<Vec<u32>>)
        ensures
            final(data)@.len() == old(data)@.len(),
            final(self).coeffs() == old(self).coeffs(),
            forall|i: int|
                0 <= i < old(data)@.len() ==> (#[trigger] final(data)@[i])@ == channel_result(
                    old(self).coeffs(),
                    old(self).hist(),
                    i,
                    old(data)@[i]@,
                ).0,
            final(self).hist().len() == if old(data)@.len() >= old(self).hist().len() {
                old(data)@.len()
            } else {
                old(self).hist().len()
            },
            forall|i: int|
                0 <= i < old(data)@.len() ==> #[trigger] final(self).hist()[i] == flush_state(
                    channel_result(old(self).coeffs(), old(self).hist(), i, old(data)@[i]@).1,
                ),
            forall|i: int|
                old(data)@.len() <= i < old(self).hist().len()
                    ==> #[trigger] final(self).hist()[i] == old(self).hist()[i],
    ;

    /// The transfer function H(z) at z = e^(j omega), omega = 2 pi f /
    /// sample_rate, as the bits of a complex double.
    fn transfer_function(&self, f: u32, sample_rate: u32) -> (r: ComplexBits)
        ensures
            r == spec_transfer(self.coeffs(), f, sample_rate),
    ;

    /// A bandwidth read back from the coefficients. The capability is
    /// deliberately unsupported: every filter answers `None`.
    fn bandwidth(&self, sample_rate: u32) -> (r: Option<u32>)
        ensures
            r is None,
    ;

    /// The magnitude of the transfer function at `f`, narrowed to a
    /// single: the amplitude response.
    fn amplitude_response(&self, f: u32, sample_rate: u32) -> (r: u32)
        ensures
            r == narrow_bits(
                norm_bits(
                    spec_transfer(self.coeffs(), f, sample_rate).re,
                    spec_transfer(self.coeffs(), f, sample_rate).im,
                ),
            ),
    {
        let h = self.transfer_function(f, sample_rate);
        fp::narrow64(cpx::cnorm(h.re, h.im))
    }

    /// The argument of the transfer function at `f`, narrowed to a
    /// single: the phase response in radians.
    fn phase_response(&self, f: u32, sample_rate: u32) -> (r: u32)
        ensures
            r == narrow_bits(
                arg_bits(
                    spec_transfer(self.coeffs(), f, sample_rate).re,
                    spec_transfer(self.coeffs(), f, sample_rate).im,
                ),
            ),
    {
        let h = self.transfer_function(f, sample_rate);
        fp::narrow64(cpx::carg(h.re, h.im))
    }
}

} // verus!
