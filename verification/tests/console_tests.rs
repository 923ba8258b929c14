use subhoofer::console::{gen_coefficients, Console, ConsoleMode, SaturationModeEnum};
use subhoofer::fixed::FP_ONE;
use subhoofer::saturation::tape_saturation;

fn fixed(x: f64) -> i64 {
    (x * 1e12).round() as i64
}

#[test]
fn bypass_is_the_identity_for_any_tap_state() {
    let mut console = Console::new(fixed(0.5), 4, ConsoleMode::BYPASS, fixed(44100.0));
    console.update_vals(fixed(0.5), fixed(0.3), ConsoleMode::DURO, fixed(44100.0));
    // Fill every tap line with history first.
    for i in 0..40 {
        let s = fixed(0.01) * (i as i64 % 7 - 3);
        console.duro_process(s, SaturationModeEnum::NONESAT, ConsoleMode::DURO);
        console.duro_process(s, SaturationModeEnum::NONESAT, ConsoleMode::NEVE);
        console.duro_process(s, SaturationModeEnum::NONESAT, ConsoleMode::API);
        console.duro_process(s, SaturationModeEnum::NONESAT, ConsoleMode::PRECISION);
        console.duro_process(s, SaturationModeEnum::NONESAT, ConsoleMode::LEAF);
        console.duro_process(s, SaturationModeEnum::NONESAT, ConsoleMode::VINE);
    }
    for i in 0..50 {
        let s = fixed(0.003) * (i as i64 * 13 % 11 - 5);
        let out = console.duro_process(s, SaturationModeEnum::NONESAT, ConsoleMode::BYPASS);
        assert_eq!(out, s);
    }
}

#[test]
fn duro_coloration_exact_values() {
    let mut console = Console::new(fixed(0.5), 4, ConsoleMode::DURO, fixed(44100.0));
    console.update_vals(fixed(0.5), fixed(0.3), ConsoleMode::DURO, fixed(44100.0));
    let o1 = console.duro_process(fixed(0.5), SaturationModeEnum::NONESAT, ConsoleMode::DURO);
    let o2 = console.duro_process(fixed(-0.2), SaturationModeEnum::NONESAT, ConsoleMode::DURO);
    let o3 = console.duro_process(fixed(0.1), SaturationModeEnum::NONESAT, ConsoleMode::DURO);
    assert_eq!(o1, 500_000_000_000);
    assert_eq!(o2, -181_285_065_500);
    assert_eq!(o3, 55_554_673_480);
}

#[test]
fn saturation_stage_matches_the_library_in_bypass() {
    let mut console = Console::new(fixed(0.5), 4, ConsoleMode::BYPASS, fixed(44100.0));
    console.update_vals(fixed(0.5), fixed(0.3), ConsoleMode::BYPASS, fixed(44100.0));
    let s = fixed(0.7);
    let out = console.duro_process(s, SaturationModeEnum::TAPESAT, ConsoleMode::BYPASS);
    assert_eq!(out, tape_saturation(s, fixed(0.3), fixed(0.5)));
}

#[test]
fn zero_console_drive_is_replaced_by_an_epsilon() {
    let mut console = Console::new(fixed(0.5), 4, ConsoleMode::DURO, fixed(44100.0));
    console.update_vals(fixed(0.5), 0, ConsoleMode::DURO, fixed(44100.0));
    console.duro_process(fixed(0.4), SaturationModeEnum::NONESAT, ConsoleMode::DURO);
    assert_eq!(console.drive, 1_000_000);
}

#[test]
fn band_coefficients_are_normalised() {
    let coeffs = gen_coefficients(fixed(2.0), fixed(44100.0), vec![fixed(280.0), fixed(800.0)]);
    assert_eq!(coeffs.len(), 2);
    for c in &coeffs {
        // With no bandwidth term the leading denominator is one, so the
        // symmetric feed-forward taps match and the trailing denominator tap
        // is exactly one.
        assert_eq!(c.0, c.2);
        assert_eq!(c.4, FP_ONE);
    }
}
