use subhoofer::fixed::{fp_abs, FP_ONE};
use subhoofer::math::{fp_atan_norm, fp_sin, fp_tanh, FP_HALF_PI, FP_PI};

fn fixed(x: f64) -> i64 {
    (x * 1e12).round() as i64
}

#[test]
fn atan_norm_stays_within_unity_everywhere() {
    for &y in &[0, 1, fixed(0.5), fixed(1.0), fixed(100.0), i64::MAX, -1, fixed(-3.0), i64::MIN] {
        assert!(fp_abs(fp_atan_norm(y)) <= FP_ONE);
    }
    assert_eq!(fp_atan_norm(0), 0);
}

#[test]
fn tanh_saturates_to_one_from_three_on() {
    assert_eq!(fp_tanh(fixed(3.0)), FP_ONE);
    assert_eq!(fp_tanh(fixed(250.0)), FP_ONE);
    assert_eq!(fp_tanh(fixed(-3.0)), -FP_ONE);
    assert_eq!(fp_tanh(0), 0);
}

#[test]
fn sine_kernel_hits_the_cardinal_points() {
    assert_eq!(fp_sin(0), 0);
    // At half pi the folded Taylor kernel sits within a thousandth of one.
    let peak = fp_sin(FP_HALF_PI);
    assert!((peak - FP_ONE).abs() < fixed(0.001));
    // At pi the fold sends the argument to the kernel's zero.
    assert!(fp_sin(FP_PI).abs() < fixed(0.001));
    // Odd around zero.
    assert_eq!(fp_sin(-FP_HALF_PI), -peak);
}
