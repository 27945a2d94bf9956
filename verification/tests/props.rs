//! The library's stated properties on concrete values: silence stays
//! silence, the flush zeroes exactly the bad words, processing is
//! deterministic, the responses match num_complex, and the trusted bit
//! constants are the constants they claim to be.

use biquad::{Biquad, Filter};
use num_complex::Complex64;

fn configured(kind: u32) -> Biquad {
    let mut f = Biquad::new();
    let (c, q, sr) = (1000f32.to_bits(), 0.707f32.to_bits(), 48000f32.to_bits());
    match kind {
        0 => f.lpf(c, q, sr),
        1 => f.hpf(c, q, sr),
        2 => f.bpf(c, q, sr),
        3 => f.notch(c, q, sr),
        4 => f.apf(c, q, sr),
        5 => f.bell(c, q, 6.0f32.to_bits(), sr),
        6 => f.low_shelf(c, q, 6.0f32.to_bits(), sr),
        _ => f.high_shelf(c, q, 6.0f32.to_bits(), sr),
    }
    f
}

#[test]
fn silence_stays_silence() {
    // All-zero input gives all-zero output for every family, and leaves
    // the history at exactly zero: a later impulse answers exactly as on
    // a fresh filter.
    for kind in 0..8u32 {
        let mut f = configured(kind);
        let mut data = vec![vec![0u32; 16]];
        f.process(&mut data);
        assert!(data[0].iter().all(|b| *b == 0), "family {kind}");
        let mut impulse = vec![vec![1.0f32.to_bits(), 0, 0, 0]];
        f.process(&mut impulse);
        let mut fresh = configured(kind);
        let mut want = vec![vec![1.0f32.to_bits(), 0, 0, 0]];
        fresh.process(&mut want);
        assert_eq!(impulse[0], want[0], "family {kind}");
    }
}

#[test]
fn flush_zeroes_subnormal_and_non_finite_words() {
    // The smallest positive subnormal, the largest subnormal, NaN and the
    // infinities are flushed to exactly zero; normal values and zero pass.
    assert_eq!(biquad::fp::flush_word(1u64), 0);
    assert_eq!(biquad::fp::flush_word(0x000F_FFFF_FFFF_FFFF), 0);
    assert_eq!(biquad::fp::flush_word(f64::NAN.to_bits()), 0);
    assert_eq!(biquad::fp::flush_word(f64::INFINITY.to_bits()), 0);
    assert_eq!(biquad::fp::flush_word(f64::NEG_INFINITY.to_bits()), 0);
    assert_eq!(biquad::fp::flush_word(0), 0);
    assert_eq!(biquad::fp::flush_word((-0.0f64).to_bits()), (-0.0f64).to_bits());
    assert_eq!(biquad::fp::flush_word(1.5f64.to_bits()), 1.5f64.to_bits());
    assert_eq!(
        biquad::fp::flush_word(f64::MIN_POSITIVE.to_bits()),
        f64::MIN_POSITIVE.to_bits()
    );
    // A subnormal f64 really has the shape the flush tests for.
    let sub = f64::MIN_POSITIVE / 4.0;
    assert!(sub.is_subnormal());
    assert_eq!(biquad::fp::flush_word(sub.to_bits()), 0);
}

#[test]
fn decayed_tail_flushes_back_to_silence() {
    // An impulse decays into the subnormal range over a long zero tail;
    // the pass-end flush returns the history to exactly zero, so the next
    // pass is exact silence and every output stays finite.
    let mut f = Biquad::new();
    f.lpf(1000f32.to_bits(), 0.707f32.to_bits(), 48000f32.to_bits());
    let mut head = vec![vec![1.0f32.to_bits()]];
    f.process(&mut head);
    let mut tail = vec![vec![0u32; 40000]];
    f.process(&mut tail);
    assert!(tail[0].iter().all(|b| f32::from_bits(*b).is_finite()));
    let mut after = vec![vec![0u32; 8]];
    f.process(&mut after);
    assert!(after[0].iter().all(|b| *b == 0));
}

#[test]
fn processing_is_deterministic() {
    // The same input from the same starting state gives bit-identical
    // output both times.
    let input: Vec<u32> = (0..64)
        .map(|i| (((i * 131 % 97) as f32 - 48.0) / 48.0).to_bits())
        .collect();
    let mut f1 = configured(5);
    let mut d1 = vec![input.clone()];
    f1.process(&mut d1);
    let mut f2 = configured(5);
    let mut d2 = vec![input.clone()];
    f2.process(&mut d2);
    assert_eq!(d1[0], d2[0]);
}

#[test]
fn transfer_function_matches_num_complex() {
    let mut f = Biquad::new();
    f.lpf(1000f32.to_bits(), 0.707f32.to_bits(), 48000f32.to_bits());
    let h = f.transfer_function(500f32.to_bits(), 48000f32.to_bits());

    // The same evaluation done independently with num_complex.
    let w0 = (2.0f32 * std::f32::consts::PI * 1000.0 / 48000.0) as f64;
    let al = w0.sin() / (2.0 * 0.707f32 as f64);
    let cw = w0.cos();
    let (b0, b1, b2) = ((1.0 - cw) / 2.0, 1.0 - cw, (1.0 - cw) / 2.0);
    let (a0, a1, a2) = (1.0 + al, -2.0 * cw, 1.0 - al);
    let w = (2.0f32 * std::f32::consts::PI * 500.0 / 48000.0) as f64;
    let z1 = Complex64::new(0.0, -1.0 * w).exp();
    let z2 = Complex64::new(0.0, -2.0 * w).exp();
    let num = b0 + b1 * z1 + b2 * z2;
    let den = a0 + a1 * z1 + a2 * z2;
    let want = num / den;
    assert_eq!(f64::from_bits(h.re).to_bits(), want.re.to_bits());
    assert_eq!(f64::from_bits(h.im).to_bits(), want.im.to_bits());

    // And the derived responses are its magnitude and argument.
    let amp = f32::from_bits(f.amplitude_response(500f32.to_bits(), 48000f32.to_bits()));
    let ph = f32::from_bits(f.phase_response(500f32.to_bits(), 48000f32.to_bits()));
    assert_eq!(amp.to_bits(), (want.norm() as f32).to_bits());
    assert_eq!(ph.to_bits(), (want.arg() as f32).to_bits());
}

#[test]
fn dc_gain_lowpass_near_one_highpass_near_zero() {
    let (q, sr) = (0.707f32.to_bits(), 48000f32.to_bits());
    let mut lp = Biquad::new();
    lp.lpf(1000f32.to_bits(), q, sr);
    let g = f32::from_bits(lp.amplitude_response(0.5f32.to_bits(), sr));
    assert!((g - 1.0).abs() < 1e-3, "low-pass gain at DC was {g}");
    let mut hp = Biquad::new();
    hp.hpf(1000f32.to_bits(), q, sr);
    let g = f32::from_bits(hp.amplitude_response(0.5f32.to_bits(), sr));
    assert!(g.abs() < 1e-3, "high-pass gain at DC was {g}");
}

#[test]
fn zero_gain_bell_and_high_shelf_are_flat() {
    // At gain 0 dB the bell's and the high shelf's numerator and
    // denominator coefficients coincide, so the response is flat. The low
    // shelf's documented formulas do not coincide at gain 0 (its b1 and
    // a1 differ in sign), so it is not flat and is not tested here.
    let (q, sr) = (0.707f32.to_bits(), 48000f32.to_bits());
    let zero = 0.0f32.to_bits();
    let freqs = [20.0f32, 100.0, 1000.0, 5000.0, 15000.0];
    let mut bell = Biquad::new();
    bell.bell(1000f32.to_bits(), q, zero, sr);
    let mut high = Biquad::new();
    high.high_shelf(1000f32.to_bits(), q, zero, sr);
    for f in freqs {
        for filt in [&bell, &high] {
            let g = f32::from_bits(filt.amplitude_response(f.to_bits(), sr));
            assert!((g - 1.0).abs() < 1e-5, "gain {g} at {f} Hz");
        }
    }
}

#[test]
fn all_pass_is_flat_everywhere() {
    let mut f = Biquad::new();
    f.apf(1000f32.to_bits(), 0.707f32.to_bits(), 48000f32.to_bits());
    for hz in [50.0f32, 440.0, 2000.0, 12000.0] {
        let g = f32::from_bits(f.amplitude_response(hz.to_bits(), 48000f32.to_bits()));
        assert!((g - 1.0).abs() < 1e-9, "gain {g} at {hz} Hz");
    }
}

#[test]
fn bandwidth_is_unsupported() {
    let f = configured(0);
    assert!(f.bandwidth(48000f32.to_bits()).is_none());
}

#[test]
fn trusted_bit_constants_are_those_values() {
    assert_eq!(biquad::fp::F32_PI, std::f32::consts::PI.to_bits());
    assert_eq!(biquad::fp::F32_TWO, 2.0f32.to_bits());
    assert_eq!(biquad::fp::F32_TEN, 10.0f32.to_bits());
    assert_eq!(biquad::fp::F32_FORTY, 40.0f32.to_bits());
    assert_eq!(biquad::fp::F64_ONE, 1.0f64.to_bits());
    assert_eq!(biquad::fp::F64_TWO, 2.0f64.to_bits());
    assert_eq!(biquad::fp::F64_NEG_ONE, (-1.0f64).to_bits());
    assert_eq!(biquad::fp::F64_NEG_TWO, (-2.0f64).to_bits());
    assert_eq!(biquad::fp::F64_ZERO, 0.0f64.to_bits());
}
