use subhoofer::fixed::FP_ONE;
use subhoofer::sweeten::{cycle_len, process, BUFFER_SLOTS};

fn fixed(x: f64) -> i64 {
    (x * 1e12).round() as i64
}

#[test]
fn cycle_length_follows_the_overall_scale() {
    assert_eq!(cycle_len(fixed(0.5)), 1);
    assert_eq!(cycle_len(FP_ONE), 1);
    assert_eq!(cycle_len(fixed(2.0)), 2);
    assert_eq!(cycle_len(fixed(3.9)), 3);
    assert_eq!(cycle_len(fixed(100.0)), 4);
}

#[test]
fn stacker_exact_first_step() {
    let mut buffer: Vec<i64> = vec![0; BUFFER_SLOTS];
    let (out_l, out_r) = process(fixed(0.5), fixed(-0.25), FP_ONE, 26_470_589, 2, &mut buffer);
    assert_eq!(out_l, -327_205_906_250);
    assert_eq!(out_r, -456_801_476_562);
    assert_eq!(buffer[0], 500_000_000_000);
    assert_eq!(buffer[1], 1_654_411_812_500);
    assert_eq!(buffer[8], -250_000_000_000);
    assert_eq!(buffer[9], 413_602_953_125);
}

#[test]
fn right_channel_stays_silent_while_the_left_is_driven() {
    let mut buffer: Vec<i64> = vec![0; BUFFER_SLOTS];
    for i in 0..500 {
        let left = fixed(0.02) * ((i * 7) % 13 - 6);
        let (_, out_r) = process(left, 0, fixed(2.0), 26_470_589, 2, &mut buffer);
        assert_eq!(out_r, 0);
    }
    for k in 8..16 {
        assert_eq!(buffer[k], 0, "right slot {} must stay zero", k);
    }
}

#[test]
fn zero_drive_reduces_the_stacker_to_a_delay_free_pass() {
    // With a zero drive the smoothed copy is zero, so the output equals the
    // input exactly.
    let mut buffer: Vec<i64> = vec![0; BUFFER_SLOTS];
    for i in 0..20 {
        let left = fixed(0.1) * (i % 5 - 2);
        let right = fixed(0.05) * (i % 3 - 1);
        let (out_l, out_r) = process(left, right, FP_ONE, 0, 3, &mut buffer);
        assert_eq!(out_l, left);
        assert_eq!(out_r, right);
    }
}
