use subhoofer::fixed::FP_ONE;
use subhoofer::mix::{meter_decay_weight, meter_step, mix_dry_wet, DcBlocker};

fn fixed(x: f64) -> i64 {
    (x * 1e12).round() as i64
}

#[test]
fn dc_blocker_converges_on_constant_input() {
    // A constant stream decays the output toward zero; by well past the
    // 500-sample mark it sits within 1e-4 of zero and keeps shrinking.
    let mut dc = DcBlocker::new();
    let input = fixed(0.5);
    let mut prev = dc.step(input).abs();
    for _ in 0..3000 {
        let y = dc.step(input).abs();
        assert!(y <= prev, "magnitude must never grow on a constant stream");
        prev = y;
    }
    assert!(prev < fixed(1e-4));
}

#[test]
fn dc_blocker_first_sample_passes_through() {
    let mut dc = DcBlocker::new();
    assert_eq!(dc.step(fixed(0.5)), fixed(0.5));
}

#[test]
fn meter_rises_immediately_and_decays_exactly() {
    assert_eq!(meter_step(fixed(0.5), fixed(0.7), fixed(0.9)), fixed(0.7));
    assert_eq!(meter_step(fixed(0.5), fixed(0.2), fixed(0.9)), 470_000_000_000);
}

#[test]
fn meter_decay_weight_is_a_proper_fraction() {
    let w = meter_decay_weight(fixed(44100.0), fixed(100.0));
    assert!(0 < w && w < FP_ONE);
    // 12 dB per 100 ms at 44.1 kHz: just below one.
    assert!(w > fixed(0.999));
}

#[test]
fn dry_wet_blend_exact() {
    assert_eq!(mix_dry_wet(fixed(0.3), fixed(0.5), fixed(0.5)), fixed(0.55));
    assert_eq!(mix_dry_wet(fixed(0.3), fixed(0.5), 0), fixed(0.3));
}
