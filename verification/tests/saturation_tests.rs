use subhoofer::fixed::{fp_abs, fp_neg, FP_ONE};
use subhoofer::saturation::{
    add_x_harmonics, b_bass_saturation, c_bass_saturation, candle_saturation, chebyshev_hoof,
    chebyshev_tape, custom_sincos_saturation, digital_saturation, golden_cubic, leaf_saturation,
    odd_saturation_with_threshold, tape_saturation, tape_transfer, transformer_saturation,
};

fn fixed(x: f64) -> i64 {
    (x * 1e12).round() as i64
}

#[test]
fn digital_clip_clips_exactly_at_threshold_under_full_drive() {
    // threshold 0.5, drive 1.0, sample 1.0: a full clip with no dry blend.
    let out = digital_saturation(fixed(1.0), fixed(0.5), fixed(1.0));
    assert_eq!(out, fixed(0.5));
}

#[test]
fn digital_clip_passes_sample_below_threshold() {
    let out = digital_saturation(fixed(0.3), fixed(0.5), fixed(1.0));
    assert_eq!(out, fixed(0.3));
}

#[test]
fn tape_saturation_exact_value() {
    let out = tape_saturation(fixed(0.3), fixed(0.5), fixed(0.8));
    assert_eq!(out, 70_487_102_218);
}

#[test]
fn tape_saturation_is_odd() {
    for &(x, d, t) in &[(0.3, 0.5, 0.8), (0.9, 0.0, 0.5), (2.5, 1.7, 0.2), (0.001, 12.0, 1.0)] {
        let pos = tape_saturation(fixed(x), fixed(d), fixed(t));
        let neg = tape_saturation(fp_neg(fixed(x)), fixed(d), fixed(t));
        assert_eq!(neg, fp_neg(pos));
    }
}

#[test]
fn transformer_passes_signal_below_threshold_unchanged() {
    let s = fixed(0.2);
    assert_eq!(transformer_saturation(s, fixed(0.5), fixed(0.7)), s);
    let s = fp_neg(fixed(0.49));
    assert_eq!(transformer_saturation(s, fixed(0.5), fixed(0.7)), s);
}

#[test]
fn transformer_hard_clamps_to_unity() {
    let out = transformer_saturation(fixed(3.0), fixed(0.1), fixed(4.0));
    assert!(fp_abs(out) <= FP_ONE);
}

#[test]
fn odd_harmonics_sum_every_component() {
    // Components below the threshold pass through untouched; components above
    // it are scaled back onto it. With a small strength every component stays
    // below the threshold, so the result is the plain sum over the input.
    let quiet = odd_saturation_with_threshold(fixed(0.5), fixed(0.05), fixed(0.2));
    assert_eq!(quiet, 537_350_907_345);
    let mixed = odd_saturation_with_threshold(fixed(0.5), fixed(0.3), fixed(0.2));
    assert_eq!(mixed, 718_134_319_802);
}

#[test]
fn stacked_harmonics_sum_every_component() {
    let out = add_x_harmonics(fixed(0.5), fixed(0.3), fixed(0.2), 4);
    assert_eq!(out, 405_626_157_522);
}

#[test]
fn candle_saturation_exact_value() {
    let out = candle_saturation(fixed(0.8), fixed(1.0), fixed(0.5));
    assert_eq!(out, 1_030_769_230_769);
}

#[test]
fn chebyshev_tape_exact_value() {
    let out = chebyshev_tape(fixed(0.9), fixed(0.4), fixed(0.2));
    assert_eq!(out, 246_530_935_855);
}

#[test]
fn every_curve_is_reproducible() {
    // The library is stateless: the same inputs give the same output.
    let (x, d, t) = (fixed(0.37), fixed(0.8), fixed(0.4));
    assert_eq!(tape_saturation(x, d, t), tape_saturation(x, d, t));
    assert_eq!(golden_cubic(x, t, d), golden_cubic(x, t, d));
    assert_eq!(leaf_saturation(x, t, d), leaf_saturation(x, t, d));
    assert_eq!(
        odd_saturation_with_threshold(x, d, t),
        odd_saturation_with_threshold(x, d, t)
    );
    assert_eq!(add_x_harmonics(x, d, t, 4), add_x_harmonics(x, d, t, 4));
    assert_eq!(b_bass_saturation(x, d), b_bass_saturation(x, d));
    assert_eq!(c_bass_saturation(x, d), c_bass_saturation(x, d));
    assert_eq!(
        custom_sincos_saturation(x, d, d, d, d),
        custom_sincos_saturation(x, d, d, d, d)
    );
    assert_eq!(tape_transfer(x, d), tape_transfer(x, d));
    assert_eq!(chebyshev_hoof(x, d), chebyshev_hoof(x, d));
    assert_eq!(transformer_saturation(x, t, d), transformer_saturation(x, t, d));
}

#[test]
fn silence_generates_no_harmonics() {
    assert_eq!(tape_transfer(0, fixed(0.5)), 0);
    assert_eq!(leaf_saturation(0, fixed(0.03), fixed(0.5)), 0);
    assert_eq!(chebyshev_hoof(0, fixed(0.01)), 0);
}

#[test]
fn harmonic_adders_stray_at_most_one_threshold_per_order() {
    for &(s, st, t) in &[(0.5, 0.3, 0.2), (-0.7, 2.0, 0.1), (1.5, 0.05, 0.4)] {
        let odd = odd_saturation_with_threshold(fixed(s), fixed(st), fixed(t));
        assert!((odd - fixed(s)).abs() <= 5 * fixed(t));
        let stacked = add_x_harmonics(fixed(s), fixed(st), fixed(t), 4);
        assert!((stacked - fixed(s)).abs() <= 10 * fixed(t));
    }
}

#[test]
fn eight_harmonic_stack_is_bounded_by_input_and_strength() {
    for &(s, st) in &[(0.5, 0.3), (-3.0, 2.0), (0.0, 1.0), (10.0, 0.0)] {
        let out = b_bass_saturation(fixed(s), fixed(st));
        assert!(out.abs() <= fixed(s).abs() + 168 * fixed(st).abs());
    }
}

#[test]
fn tape_transfer_at_zero_drive_cancels_the_input() {
    assert_eq!(tape_transfer(fixed(0.4), 0), fixed(-0.4));
    assert_eq!(tape_transfer(fixed(-1.3), 0), fixed(1.3));
}

#[test]
fn tape_transfer_is_odd() {
    for &(x, d) in &[(0.3, 0.5), (1.2, 2.0), (0.01, 0.0)] {
        let pos = tape_transfer(fixed(x), fixed(d));
        assert_eq!(tape_transfer(fp_neg(fixed(x)), fixed(d)), fp_neg(pos));
    }
}

#[test]
fn leaf_saturation_is_odd() {
    for &(x, t, d) in &[(0.3, 0.03, 0.5), (2.5, 0.4, 1.0), (0.001, 0.1, 0.0)] {
        let pos = leaf_saturation(fixed(x), fixed(t), fixed(d));
        assert_eq!(leaf_saturation(fp_neg(fixed(x)), fixed(t), fixed(d)), fp_neg(pos));
    }
}

#[test]
fn hardness_shaper_at_zero_drive_is_the_identity() {
    assert_eq!(chebyshev_hoof(fixed(0.37), 0), fixed(0.37));
    assert_eq!(chebyshev_hoof(fixed(-2.1), 0), fixed(-2.1));
}

#[test]
fn c_bass_leaves_the_cosine_bias_at_zero_input() {
    // At zero input every sine component vanishes but each of the seven
    // cosine components contributes the bare strength, so the average is the
    // strength shaped by the cosine kernel at zero.
    assert_eq!(c_bass_saturation(0, fixed(0.4)), 399_937_240_560);
}
