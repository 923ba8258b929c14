//! The saturation library: stateless nonlinear transfer functions.
//!
//! Every function here is a pure map from a sample (and control values) to a
//! sample; the same inputs always give the same output. All arithmetic is the
//! saturating fixed-point arithmetic of [`crate::fixed`], so every function is
//! total and every result is finite by construction.

use crate::fixed::{
    abs_i, fp_abs, fp_abs_s, fp_add, fp_add_s, fp_div, fp_div_s, fp_from_int, fp_from_int_s, fp_mul,
    fp_mul_s, fp_neg, fp_neg_s, fp_powi, fp_powi_s, fp_sub, fp_sub_s, lemma_fp_abs_even,
    lemma_fp_div_odd, lemma_fp_mul_odd, lemma_fp_mul_one, FP_ONE,
};
use crate::math::{
    fp_atan_norm, fp_atan_norm_s, fp_cos, fp_cos_s, fp_exp_neg, fp_exp_neg_s, fp_gain_from_db,
    fp_gain_from_db_s, fp_sin, fp_sin_s, fp_tanh, fp_tanh_s, lemma_tanh_odd, FP_SIX, FP_THREE,
};
use vstd::prelude::*;

verus! {

/// Substitute for a zero drive in the tape curve, so the transfer stays
/// defined.
pub const FP_DRIVE_EPS: i64 = 100_000_000;

/// Linear gain of -12 dB, the tape curve's makeup attenuation.
pub const FP_GAIN_M12DB: i64 = 251_188_643_151;

/// Linear gain of -3 dB, the golden-cubic curve's makeup attenuation.
pub const FP_GAIN_M3DB: i64 = 707_945_784_384;

/// The golden ratio, the cubic excess weight of the golden-cubic curve.
pub const FP_GOLDEN: i64 = 1_618_033_988_750;

pub const FP_HALF: i64 = 500_000_000_000;
pub const FP_TWO: i64 = 2_000_000_000_000;
pub const FP_FOUR: i64 = 4_000_000_000_000;
pub const FP_SEVEN: i64 = 7_000_000_000_000;
pub const FP_999: i64 = 999_000_000_000_000;
pub const FP_03: i64 = 300_000_000_000;
pub const FP_06: i64 = 600_000_000_000;
pub const CHEB3: i64 = 166_667_000_000;
pub const CHEB5: i64 = 8_333_330_000;
pub const CHEB6: i64 = 198_413_000;
pub const CHEB6_DRIVE: i64 = 23_800;
pub const FP_CLIP_EPS: i64 = 100_000_000;

/// The sign of `x` applied to `v`, with the sign of zero taken as positive.
pub open spec fn sign_apply_s(x: i64, v: i64) -> i64 {
    if x >= 0 {
        v
    } else {
        fp_neg_s(v)
    }
}

fn sign_apply(x: i64, v: i64) -> (r: i64)
    ensures
        r == sign_apply_s(x, v),
{
    if x >= 0 {
        v
    } else {
        fp_neg(v)
    }
}

/// The soft clip `y / (1 + |y|)` keeps every value within unity.
pub proof fn lemma_soft_clip_bounded(y: i64)
    requires
        y > i64::MIN,
    ensures
        fp_abs_s(fp_div_s(y, fp_add_s(FP_ONE, fp_abs_s(y)))) <= FP_ONE,
{
    let m = fp_abs_s(y);
    let d = fp_add_s(FP_ONE, m);
    assert(m <= d);
    assert(abs_i(y * FP_ONE) == abs_i(y as int) * FP_ONE) by (nonlinear_arith);
    assert(abs_i(y as int) * FP_ONE <= d * FP_ONE) by (nonlinear_arith)
        requires
            abs_i(y as int) <= d,
    ;
    vstd::arithmetic::div_mod::lemma_div_is_ordered(
        abs_i(y as int) * FP_ONE,
        d * FP_ONE,
        d as int,
    );
    vstd::arithmetic::div_mod::lemma_div_multiples_vanish(FP_ONE as int, d as int);
    assert(d * FP_ONE == d * (FP_ONE as int)) by (nonlinear_arith);
    vstd::arithmetic::div_mod::lemma_div_basics_4(abs_i(y as int) * FP_ONE, d as int);
}

/// Tape saturation: a tangent-curve transfer normalised at the threshold,
/// softly clipped, with -12 dB of makeup attenuation. A zero drive is
/// replaced by a small epsilon so the transfer stays defined.
pub open spec fn tape_saturation_s(input_signal: i64, drive: i64, threshold: i64) -> i64 {
    let idrive = if drive == 0 {
        FP_DRIVE_EPS
    } else {
        drive
    };
    let shaped = fp_div_s(
        fp_tanh_s(fp_mul_s(input_signal, idrive)),
        fp_tanh_s(fp_mul_s(threshold, idrive)),
    );
    let soft = fp_div_s(shaped, fp_add_s(FP_ONE, fp_abs_s(shaped)));
    fp_mul_s(soft, FP_GAIN_M12DB)
}

/// Tape saturation. The soft clip and the makeup attenuation keep every
/// result within the makeup gain, whatever the inputs.
pub fn tape_saturation(input_signal: i64, drive: i64, threshold: i64) -> (r: i64)
    ensures
        r == tape_saturation_s(input_signal, drive, threshold),
        fp_abs_s(r) <= FP_GAIN_M12DB,
{
    let idrive = if drive == 0 {
        FP_DRIVE_EPS
    } else {
        drive
    };
    let shaped = fp_div(
        fp_tanh(fp_mul(input_signal, idrive)),
        fp_tanh(fp_mul(threshold, idrive)),
    );
    let soft = fp_div(shaped, fp_add(FP_ONE, fp_abs(shaped)));
    proof {
        lemma_soft_clip_bounded(shaped);
        crate::fixed::lemma_fp_mul_contracting(soft, FP_GAIN_M12DB);
    }
    fp_mul(soft, FP_GAIN_M12DB)
}

/// Tape saturation is an odd function of the sample: negating the input
/// negates the output, for any drive and threshold.
pub proof fn lemma_tape_saturation_odd(input_signal: i64, drive: i64, threshold: i64)
    requires
        input_signal > i64::MIN,
    ensures
        tape_saturation_s(fp_neg_s(input_signal), drive, threshold) == fp_neg_s(
            tape_saturation_s(input_signal, drive, threshold),
        ),
{
    let idrive = if drive == 0 {
        FP_DRIVE_EPS
    } else {
        drive
    };
    let num = fp_tanh_s(fp_mul_s(input_signal, idrive));
    let den = fp_tanh_s(fp_mul_s(threshold, idrive));
    let shaped = fp_div_s(num, den);
    lemma_fp_mul_odd(input_signal, idrive);
    lemma_tanh_odd(fp_mul_s(input_signal, idrive));
    lemma_fp_div_odd(num, den);
    lemma_fp_abs_even(shaped);
    lemma_fp_div_odd(shaped, fp_add_s(FP_ONE, fp_abs_s(shaped)));
    lemma_fp_mul_odd(fp_div_s(shaped, fp_add_s(FP_ONE, fp_abs_s(shaped))), FP_GAIN_M12DB);
}

/// Digital clip: hard clip at the threshold, cross-faded with the dry sample
/// by the drive amount.
pub open spec fn digital_saturation_s(sample: i64, threshold: i64, drive: i64) -> i64 {
    let clipped = if fp_abs_s(sample) > threshold {
        sign_apply_s(sample, threshold)
    } else {
        sample
    };
    fp_add_s(fp_mul_s(sample, fp_sub_s(FP_ONE, drive)), fp_mul_s(clipped, drive))
}

/// Digital clip.
pub fn digital_saturation(sample: i64, threshold: i64, drive: i64) -> (r: i64)
    ensures
        r == digital_saturation_s(sample, threshold, drive),
{
    let clipped = if fp_abs(sample) > threshold {
        sign_apply(sample, threshold)
    } else {
        sample
    };
    fp_add(fp_mul(sample, fp_sub(FP_ONE, drive)), fp_mul(clipped, drive))
}

/// The odd/even polynomial kernel shared by the Chebyshev-style curves:
/// `x - 0.166667 x^3 + 0.00833333 x^5 - 0.000198413 x^6`.
pub open spec fn cheb_poly_s(x: i64) -> i64 {
    let x2 = fp_mul_s(x, x);
    let x3 = fp_mul_s(x, x2);
    let x5 = fp_mul_s(x3, x2);
    let x6 = fp_mul_s(x3, x3);
    fp_sub_s(
        fp_add_s(fp_sub_s(x, fp_mul_s(CHEB3, x3)), fp_mul_s(CHEB5, x5)),
        fp_mul_s(CHEB6, x6),
    )
}

fn cheb_poly(x: i64) -> (r: i64)
    ensures
        r == cheb_poly_s(x),
{
    let x2 = fp_mul(x, x);
    let x3 = fp_mul(x, x2);
    let x5 = fp_mul(x3, x2);
    let x6 = fp_mul(x3, x3);
    fp_sub(fp_add(fp_sub(x, fp_mul(CHEB3, x3)), fp_mul(CHEB5, x5)), fp_mul(CHEB6, x6))
}

/// Chebyshev tape: the input is rescaled under a dynamic limit factor when it
/// exceeds the threshold, shaped by the sine-like polynomial, and softly
/// clipped.
pub open spec fn chebyshev_tape_s(sample: i64, threshold: i64, drive: i64) -> i64 {
    let k = if fp_abs_s(sample) > threshold {
        fp_div_s(threshold, fp_abs_s(sample))
    } else {
        FP_ONE
    };
    let x = fp_div_s(fp_mul_s(sample, k), fp_add_s(FP_ONE, drive));
    let y = cheb_poly_s(x);
    fp_div_s(y, fp_add_s(FP_ONE, fp_abs_s(y)))
}

/// Chebyshev tape. The closing soft clip keeps every result within unity.
pub fn chebyshev_tape(sample: i64, threshold: i64, drive: i64) -> (r: i64)
    ensures
        r == chebyshev_tape_s(sample, threshold, drive),
        fp_abs_s(r) <= FP_ONE,
{
    let sample_abs = fp_abs(sample);
    let k = if sample_abs > threshold {
        fp_div(threshold, sample_abs)
    } else {
        FP_ONE
    };
    let x = fp_div(fp_mul(sample, k), fp_add(FP_ONE, drive));
    let y = cheb_poly(x);
    proof {
        lemma_soft_clip_bounded(y);
    }
    fp_div(y, fp_add(FP_ONE, fp_abs(y)))
}

/// Golden cubic: excess above the threshold is cubed and weighted by the
/// golden ratio, sign preserved, an exponential soft clip is added, and -3 dB
/// of makeup attenuation is applied.
pub open spec fn golden_cubic_s(sample: i64, threshold: i64, drive: i64) -> i64 {
    let abs_input = fp_abs_s(sample);
    let output = if abs_input > threshold {
        let excess = fp_sub_s(abs_input, threshold);
        let shaped = fp_mul_s(fp_mul_s(threshold, FP_GOLDEN), fp_powi_s(excess, 3));
        sign_apply_s(sample, fp_add_s(threshold, shaped))
    } else {
        sample
    };
    let sc_threshold = fp_sub_s(fp_sub_s(FP_ONE, drive), FP_CLIP_EPS);
    let clipped = fp_div_s(
        fp_sub_s(FP_ONE, fp_exp_neg_s(fp_abs_s(output))),
        fp_sub_s(FP_ONE, fp_exp_neg_s(sc_threshold)),
    );
    let temp = fp_add_s(output, fp_mul_s(sign_apply_s(output, clipped), sc_threshold));
    fp_mul_s(temp, FP_GAIN_M3DB)
}

/// Golden cubic.
pub fn golden_cubic(sample: i64, threshold: i64, drive: i64) -> (r: i64)
    ensures
        r == golden_cubic_s(sample, threshold, drive),
{
    let abs_input = fp_abs(sample);
    let output = if abs_input > threshold {
        let excess = fp_sub(abs_input, threshold);
        let shaped = fp_mul(fp_mul(threshold, FP_GOLDEN), fp_powi(excess, 3));
        sign_apply(sample, fp_add(threshold, shaped))
    } else {
        sample
    };
    let sc_threshold = fp_sub(fp_sub(FP_ONE, drive), FP_CLIP_EPS);
    let clipped = fp_div(
        fp_sub(FP_ONE, fp_exp_neg(fp_abs(output))),
        fp_sub(FP_ONE, fp_exp_neg(sc_threshold)),
    );
    let temp = fp_add(output, fp_mul(sign_apply(output, clipped), sc_threshold));
    fp_mul(temp, FP_GAIN_M3DB)
}

/// One harmonic component folded into the running sum: every component is
/// summed, and one whose magnitude exceeds the threshold is first scaled
/// back onto it.
pub open spec fn harmonic_step_s(
    signal: i64,
    harmonic_strength: i64,
    threshold: i64,
    summed: i64,
    harmonic: i64,
) -> i64 {
    let component = fp_mul_s(harmonic_strength, fp_sin_s(fp_mul_s(signal, harmonic)));
    if fp_abs_s(component) > threshold {
        fp_add_s(summed, fp_mul_s(component, fp_div_s(threshold, fp_abs_s(component))))
    } else {
        fp_add_s(summed, component)
    }
}

fn harmonic_step(
    signal: i64,
    harmonic_strength: i64,
    threshold: i64,
    summed: i64,
    harmonic: i64,
) -> (r: i64)
    ensures
        r == harmonic_step_s(signal, harmonic_strength, threshold, summed, harmonic),
{
    let component = fp_mul(harmonic_strength, fp_sin(fp_mul(signal, harmonic)));
    let component_abs = fp_abs(component);
    if component_abs > threshold {
        fp_add(summed, fp_mul(component, fp_div(threshold, component_abs)))
    } else {
        fp_add(summed, component)
    }
}

/// With a non-negative threshold, one harmonic step moves the running sum by
/// at most the threshold: a component within the threshold is added in full,
/// a larger one is first scaled back onto it, and the saturating addition
/// can only shrink the move.
proof fn lemma_harmonic_step_bounded(
    signal: i64,
    harmonic_strength: i64,
    threshold: i64,
    summed: i64,
    harmonic: i64,
)
    requires
        threshold >= 0,
        summed > i64::MIN,
    ensures
        abs_i(
            harmonic_step_s(signal, harmonic_strength, threshold, summed, harmonic) as int
                - summed,
        ) <= threshold,
{
    let component = fp_mul_s(harmonic_strength, fp_sin_s(fp_mul_s(signal, harmonic)));
    if fp_abs_s(component) > threshold {
        let ca = fp_abs_s(component);
        let d = fp_div_s(threshold, ca);
        assert(0 <= threshold * FP_ONE) by (nonlinear_arith)
            requires
                threshold >= 0,
        ;
        assert(threshold * FP_ONE <= ca * FP_ONE) by (nonlinear_arith)
            requires
                0 <= threshold <= ca,
        ;
        vstd::arithmetic::div_mod::lemma_div_is_ordered(
            threshold * FP_ONE,
            ca * FP_ONE,
            ca as int,
        );
        assert(ca * FP_ONE == ca as int * (FP_ONE as int)) by (nonlinear_arith);
        vstd::arithmetic::div_mod::lemma_div_multiples_vanish(FP_ONE as int, ca as int);
        vstd::arithmetic::div_mod::lemma_div_basics_4(threshold * FP_ONE, ca as int);
        assert(0 <= d <= FP_ONE);
        assert(ca as int * d <= threshold * FP_ONE) by {
            vstd::arithmetic::div_mod::lemma_fundamental_div_mod(threshold * FP_ONE, ca as int);
            vstd::arithmetic::div_mod::lemma_mod_bound(threshold * FP_ONE, ca as int);
            assert((threshold * FP_ONE) / (ca as int) * (ca as int) == ca as int * ((threshold
                * FP_ONE) / (ca as int))) by (nonlinear_arith);
        }
        assert(abs_i(component * d) == ca * d) by (nonlinear_arith)
            requires
                0 <= d && ca == abs_i(component as int),
        ;
        vstd::arithmetic::div_mod::lemma_div_is_ordered(
            ca as int * d,
            threshold * FP_ONE,
            FP_ONE as int,
        );
        assert(threshold * FP_ONE == FP_ONE as int * threshold) by (nonlinear_arith);
        vstd::arithmetic::div_mod::lemma_div_multiples_vanish(threshold as int, FP_ONE as int);
        vstd::arithmetic::div_mod::lemma_div_basics_4(ca as int * d, FP_ONE as int);
        assert(fp_abs_s(fp_mul_s(component, d)) <= threshold);
    }
}

/// Over a whole run with a non-negative threshold, the harmonic stack strays
/// from its input by at most the threshold per order.
pub proof fn lemma_odd_harmonics_bounded(signal: i64, harmonic_strength: i64, threshold: i64, n: nat)
    requires
        threshold >= 0,
        signal > i64::MIN,
    ensures
        abs_i(odd_harmonic_sum_s(signal, harmonic_strength, threshold, n) as int - signal) <= n
            * threshold,
        odd_harmonic_sum_s(signal, harmonic_strength, threshold, n) > i64::MIN,
    decreases n,
{
    if n > 0 {
        lemma_odd_harmonics_bounded(signal, harmonic_strength, threshold, (n - 1) as nat);
        let prev = odd_harmonic_sum_s(signal, harmonic_strength, threshold, (n - 1) as nat);
        lemma_harmonic_step_bounded(
            signal,
            harmonic_strength,
            threshold,
            prev,
            fp_from_int_s(2 * n - 1),
        );
        assert((n - 1) * threshold + threshold == n * threshold) by (nonlinear_arith);
    }
}

/// The bound of the preceding lemma, for the configurable-multiple stack.
pub proof fn lemma_x_harmonics_bounded(
    signal: i64,
    harmonic_strength: i64,
    threshold: i64,
    harmonic_num: i32,
    n: nat,
)
    requires
        threshold >= 0,
        signal > i64::MIN,
    ensures
        abs_i(
            x_harmonic_sum_s(signal, harmonic_strength, threshold, harmonic_num, n) as int
                - signal,
        ) <= n * threshold,
        x_harmonic_sum_s(signal, harmonic_strength, threshold, harmonic_num, n) > i64::MIN,
    decreases n,
{
    if n > 0 {
        lemma_x_harmonics_bounded(signal, harmonic_strength, threshold, harmonic_num, (n - 1) as nat);
        let prev = x_harmonic_sum_s(signal, harmonic_strength, threshold, harmonic_num, (n - 1) as nat);
        lemma_harmonic_step_bounded(
            signal,
            harmonic_strength,
            threshold,
            prev,
            fp_from_int_s(harmonic_num as int * n),
        );
        assert((n - 1) * threshold + threshold == n * threshold) by (nonlinear_arith);
    }
}

/// The running sum of the first `n` odd harmonics.
pub open spec fn odd_harmonic_sum_s(signal: i64, harmonic_strength: i64, threshold: i64, n: nat) -> i64
    decreases n,
{
    if n == 0 {
        signal
    } else {
        harmonic_step_s(
            signal,
            harmonic_strength,
            threshold,
            odd_harmonic_sum_s(signal, harmonic_strength, threshold, (n - 1) as nat),
            fp_from_int_s(2 * n - 1),
        )
    }
}

/// Odd harmonics: adds five sine harmonics at odd multiples of the input,
/// each rescaled onto the threshold when it exceeds it.
pub open spec fn odd_saturation_with_threshold_s(
    signal: i64,
    harmonic_strength: i64,
    threshold: i64,
) -> i64 {
    odd_harmonic_sum_s(signal, harmonic_strength, threshold, 5)
}

/// Odd harmonics.
pub fn odd_saturation_with_threshold(signal: i64, harmonic_strength: i64, threshold: i64) -> (r:
    i64)
    ensures
        r == odd_saturation_with_threshold_s(signal, harmonic_strength, threshold),
{
    let mut summed = signal;
    let mut j: u32 = 1;
    while j <= 5
        invariant
            1 <= j <= 6,
            summed == odd_harmonic_sum_s(signal, harmonic_strength, threshold, (j - 1) as nat),
        decreases 6 - j,
    {
        let harmonic = fp_from_int(2 * (j as i64) - 1);
        summed = harmonic_step(signal, harmonic_strength, threshold, summed, harmonic);
        j = j + 1;
    }
    summed
}

/// The running sum of `n` harmonics at multiples of `harmonic_num`.
pub open spec fn x_harmonic_sum_s(
    signal: i64,
    harmonic_strength: i64,
    threshold: i64,
    harmonic_num: i32,
    n: nat,
) -> i64
    decreases n,
{
    if n == 0 {
        signal
    } else {
        harmonic_step_s(
            signal,
            harmonic_strength,
            threshold,
            x_harmonic_sum_s(signal, harmonic_strength, threshold, harmonic_num, (n - 1) as nat),
            fp_from_int_s(harmonic_num as int * n),
        )
    }
}

/// Stacked harmonics: adds ten sine harmonics at integer multiples of
/// `harmonic_num`, each rescaled onto the threshold when it exceeds it.
pub open spec fn add_x_harmonics_s(
    signal: i64,
    harmonic_strength: i64,
    threshold: i64,
    harmonic_num: i32,
) -> i64 {
    x_harmonic_sum_s(signal, harmonic_strength, threshold, harmonic_num, 10)
}

/// Stacked harmonics.
pub fn add_x_harmonics(
    signal: i64,
    harmonic_strength: i64,
    threshold: i64,
    harmonic_num: i32,
) -> (r: i64)
    ensures
        r == add_x_harmonics_s(signal, harmonic_strength, threshold, harmonic_num),
{
    let mut summed = signal;
    let mut j: u32 = 1;
    while j <= 10
        invariant
            1 <= j <= 11,
            summed == x_harmonic_sum_s(
                signal,
                harmonic_strength,
                threshold,
                harmonic_num,
                (j - 1) as nat,
            ),
        decreases 11 - j,
    {
        proof {
            assert((harmonic_num as int) * (j as int) <= 0x8000_0000 * 10 && (harmonic_num as int)
                * (j as int) >= -0x8000_0000 * 10) by (nonlinear_arith)
                requires
                    -0x8000_0000 <= harmonic_num as int <= 0x7fff_ffff,
                    1 <= j as int <= 10,
            ;
        }
        let harmonic = fp_from_int((harmonic_num as i64) * (j as i64));
        summed = harmonic_step(signal, harmonic_strength, threshold, summed, harmonic);
        j = j + 1;
    }
    summed
}

/// Candle: the excess over the threshold is driven, softly compressed, and
/// added back to the signal.
pub open spec fn candle_saturation_s(signal: i64, drive: i64, threshold: i64) -> i64 {
    let over = fp_sub_s(signal, threshold);
    let amount = fp_mul_s(if over > 0 { over } else { 0 }, drive);
    let compressed = fp_div_s(amount, fp_add_s(FP_ONE, fp_abs_s(amount)));
    fp_add_s(signal, compressed)
}

/// Candle.
pub fn candle_saturation(signal: i64, drive: i64, threshold: i64) -> (r: i64)
    ensures
        r == candle_saturation_s(signal, drive, threshold),
{
    let over = fp_sub(signal, threshold);
    let amount = fp_mul(if over > 0 { over } else { 0 }, drive);
    let compressed = fp_div(amount, fp_add(FP_ONE, fp_abs(amount)));
    fp_add(signal, compressed)
}

/// Leaf: the input is boosted by a drive-dependent decibel offset (1 to 7 dB),
/// soft-limited through a normalised arctangent scaled by the threshold, with
/// a small convex curve term for high-level colour.
pub open spec fn leaf_saturation_s(input_signal: i64, threshold: i64, drive: i64) -> i64 {
    let drive_db = fp_add_s(FP_ONE, fp_mul_s(drive, FP_SIX));
    let holder = fp_mul_s(input_signal, fp_gain_from_db_s(drive_db));
    let curve = fp_powi_s(fp_div_s(holder, FP_999), 2);
    let y = fp_atan_norm_s(fp_div_s(holder, threshold));
    fp_mul_s(fp_add_s(threshold, fp_mul_s(fp_sub_s(FP_ONE, threshold), curve)), y)
}

/// Leaf.
pub fn leaf_saturation(input_signal: i64, threshold: i64, drive: i64) -> (r: i64)
    ensures
        r == leaf_saturation_s(input_signal, threshold, drive),
{
    let drive_db = fp_add(FP_ONE, fp_mul(drive, FP_SIX));
    let holder = fp_mul(input_signal, fp_gain_from_db(drive_db));
    let curve = fp_powi(fp_div(holder, FP_999), 2);
    let y = fp_atan_norm(fp_div(holder, threshold));
    fp_mul(fp_add(threshold, fp_mul(fp_sub(FP_ONE, threshold), curve)), y)
}

/// Transformer: below the threshold the signal passes at unity gain; above
/// it, gain is reduced by a fifth-power law of the overshoot, soft-limited by
/// the tangent curve, and the result is hard-clamped to plus or minus one.
pub open spec fn transformer_saturation_s(sample: i64, threshold: i64, drive: i64) -> i64 {
    let doubled = fp_mul_s(drive, FP_TWO);
    let shape = fp_sub_s(
        FP_TWO,
        if doubled < 0 {
            0
        } else if doubled > FP_TWO {
            FP_TWO
        } else {
            doubled
        },
    );
    let input_level = fp_abs_s(sample);
    let output_gain = if input_level < threshold {
        FP_ONE
    } else {
        let gain_reduction = fp_div_s(fp_sub_s(input_level, threshold), fp_sub_s(FP_ONE, threshold));
        let input_gain = fp_add_s(FP_ONE, fp_mul_s(fp_sub_s(drive, FP_ONE), fp_powi_s(gain_reduction, 5)));
        let raw = fp_div_s(fp_tanh_s(input_gain), shape);
        let shaped_gain = if raw < 0 {
            0
        } else if raw > drive {
            drive
        } else {
            raw
        };
        fp_mul_s(shaped_gain, fp_sub_s(FP_ONE, input_level))
    };
    let output = fp_mul_s(sample, output_gain);
    if fp_abs_s(output) > FP_ONE {
        sign_apply_s(output, FP_ONE)
    } else {
        output
    }
}

/// Transformer. A sample whose magnitude stays below the threshold and
/// within unity passes through unchanged, and the closing clamp keeps every
/// result within unity.
pub fn transformer_saturation(sample: i64, threshold: i64, drive: i64) -> (r: i64)
    ensures
        r == transformer_saturation_s(sample, threshold, drive),
        fp_abs_s(sample) < threshold && fp_abs_s(sample) <= FP_ONE ==> r == sample,
        fp_abs_s(r) <= FP_ONE,
{
    let doubled = fp_mul(drive, FP_TWO);
    let shape = fp_sub(
        FP_TWO,
        if doubled < 0 {
            0
        } else if doubled > FP_TWO {
            FP_TWO
        } else {
            doubled
        },
    );
    let input_level = fp_abs(sample);
    let output_gain = if input_level < threshold {
        FP_ONE
    } else {
        let gain_reduction = fp_div(fp_sub(input_level, threshold), fp_sub(FP_ONE, threshold));
        let input_gain = fp_add(FP_ONE, fp_mul(fp_sub(drive, FP_ONE), fp_powi(gain_reduction, 5)));
        let raw = fp_div(fp_tanh(input_gain), shape);
        let shaped_gain = if raw < 0 {
            0
        } else if raw > drive {
            drive
        } else {
            raw
        };
        fp_mul(shaped_gain, fp_sub(FP_ONE, input_level))
    };
    let output = fp_mul(sample, output_gain);
    proof {
        if fp_abs_s(sample) < threshold && fp_abs_s(sample) <= FP_ONE {
            lemma_fp_mul_one(sample);
        }
    }
    if fp_abs(output) > FP_ONE {
        sign_apply(output, FP_ONE)
    } else {
        output
    }
}

/// The tangent transfer used for gentle harmonic generation: halfway between
/// the tangent curve and the plain linear gain, minus the input.
pub open spec fn tape_transfer_s(input_signal: i64, drive: i64) -> i64 {
    let tanh_saturation = fp_tanh_s(fp_mul_s(input_signal, drive));
    let linear_saturation = fp_mul_s(input_signal, drive);
    let shaped = fp_add_s(
        tanh_saturation,
        fp_mul_s(fp_sub_s(linear_saturation, tanh_saturation), FP_HALF),
    );
    fp_sub_s(shaped, input_signal)
}

/// The tangent transfer used for gentle harmonic generation.
pub fn tape_transfer(input_signal: i64, drive: i64) -> (r: i64)
    ensures
        r == tape_transfer_s(input_signal, drive),
        drive == 0 ==> r == fp_neg_s(input_signal),
{
    proof {
        if drive == 0 {
            crate::fixed::lemma_fp_mul_zero(input_signal);
            crate::math::lemma_tanh_zero();
            crate::fixed::lemma_fp_mul_zero(FP_HALF);
        }
    }
    let tanh_saturation = fp_tanh(fp_mul(input_signal, drive));
    let linear_saturation = fp_mul(input_signal, drive);
    let shaped = fp_add(
        tanh_saturation,
        fp_mul(fp_sub(linear_saturation, tanh_saturation), FP_HALF),
    );
    fp_sub(shaped, input_signal)
}

/// The tangent transfer is odd: negating the input negates the output, for
/// any drive.
pub proof fn lemma_tape_transfer_odd(input_signal: i64, drive: i64)
    requires
        input_signal > i64::MIN,
    ensures
        tape_transfer_s(fp_neg_s(input_signal), drive) == fp_neg_s(
            tape_transfer_s(input_signal, drive),
        ),
{
    let linear = fp_mul_s(input_signal, drive);
    crate::fixed::lemma_fp_mul_odd(input_signal, drive);
    assert(linear > i64::MIN);
    crate::math::lemma_tanh_odd(linear);
    let ts = fp_tanh_s(linear);
    assert(ts > i64::MIN);
    crate::fixed::lemma_fp_sub_odd(linear, ts);
    let diff = fp_sub_s(linear, ts);
    assert(diff > i64::MIN);
    crate::fixed::lemma_fp_mul_odd(diff, FP_HALF);
    let half_diff = fp_mul_s(diff, FP_HALF);
    assert(half_diff > i64::MIN);
    crate::fixed::lemma_fp_add_odd(ts, half_diff);
    let shaped = fp_add_s(ts, half_diff);
    assert(shaped > i64::MIN);
    crate::fixed::lemma_fp_sub_odd(shaped, input_signal);
}

/// The tangent transfer fixes zero: silence generates no harmonics.
pub proof fn lemma_tape_transfer_zero(drive: i64)
    ensures
        tape_transfer_s(0, drive) == 0,
{
    crate::fixed::lemma_fp_mul_zero(drive);
    crate::math::lemma_tanh_zero();
    crate::fixed::lemma_fp_mul_zero(FP_HALF);
}

/// The leaf curve is odd in the input signal: the boosted holder is odd, the
/// squared curve term even, and the normalised arctangent odd, so their
/// product flips sign with the input.
pub proof fn lemma_leaf_odd(input_signal: i64, threshold: i64, drive: i64)
    requires
        input_signal > i64::MIN,
    ensures
        leaf_saturation_s(fp_neg_s(input_signal), threshold, drive) == fp_neg_s(
            leaf_saturation_s(input_signal, threshold, drive),
        ),
{
    let boost = fp_gain_from_db_s(fp_add_s(FP_ONE, fp_mul_s(drive, FP_SIX)));
    let holder = fp_mul_s(input_signal, boost);
    crate::fixed::lemma_fp_mul_odd(input_signal, boost);
    assert(holder > i64::MIN);
    let q = fp_div_s(holder, FP_999);
    crate::fixed::lemma_fp_div_odd(holder, FP_999);
    assert(q > i64::MIN);
    crate::fixed::lemma_fp_powi2_even(q);
    let y0 = fp_div_s(holder, threshold);
    crate::fixed::lemma_fp_div_odd(holder, threshold);
    assert(y0 > i64::MIN);
    crate::math::lemma_atan_norm_odd(y0);
    let y = fp_atan_norm_s(y0);
    assert(y > i64::MIN);
    crate::fixed::lemma_fp_mul_odd_right(
        fp_add_s(threshold, fp_mul_s(fp_sub_s(FP_ONE, threshold), fp_powi_s(q, 2))),
        y,
    );
}

/// The leaf curve fixes zero: silence passes through untouched.
pub proof fn lemma_leaf_silent(threshold: i64, drive: i64)
    ensures
        leaf_saturation_s(0, threshold, drive) == 0,
{
    let drive_db = fp_add_s(FP_ONE, fp_mul_s(drive, FP_SIX));
    crate::fixed::lemma_fp_mul_zero(fp_gain_from_db_s(drive_db));
    crate::fixed::lemma_fp_div_zero(FP_999);
    crate::fixed::lemma_fp_div_zero(threshold);
    crate::fixed::lemma_fp_mul_zero(fp_powi_s(0, 1));
    crate::fixed::lemma_fp_mul_zero(FP_ONE);
    crate::math::lemma_atan_norm_zero();
    crate::fixed::lemma_fp_mul_zero(
        fp_add_s(threshold, fp_mul_s(fp_sub_s(FP_ONE, threshold), fp_powi_s(0, 2))),
    );
}

/// The hardness shaper: the input is normalised by its peak above unity,
/// shaped by the sine-like polynomial with a small drive-dependent term, and
/// blended with the dry signal by the drive amount.
pub open spec fn chebyshev_hoof_s(sample: i64, drive: i64) -> i64 {
    let dry = fp_sub_s(FP_ONE, drive);
    let peak = if fp_abs_s(sample) > FP_ONE {
        fp_abs_s(sample)
    } else {
        FP_ONE
    };
    let x = fp_div_s(sample, peak);
    let x2 = fp_mul_s(x, x);
    let x3 = fp_mul_s(x, x2);
    let x5 = fp_mul_s(x3, x2);
    let x6 = fp_mul_s(x3, x3);
    let y = fp_add_s(
        fp_sub_s(
            fp_add_s(fp_sub_s(x, fp_mul_s(CHEB3, x3)), fp_mul_s(CHEB5, x5)),
            fp_mul_s(CHEB6, x6),
        ),
        fp_mul_s(fp_mul_s(CHEB6_DRIVE, x6), drive),
    );
    fp_add_s(
        fp_mul_s(dry, sample),
        fp_div_s(fp_mul_s(fp_sub_s(FP_ONE, dry), y), fp_add_s(FP_ONE, fp_abs_s(y))),
    )
}

/// The hardness shaper.
pub fn chebyshev_hoof(sample: i64, drive: i64) -> (r: i64)
    ensures
        r == chebyshev_hoof_s(sample, drive),
        drive == 0 && sample > i64::MIN ==> r == sample,
{
    let dry = fp_sub(FP_ONE, drive);
    let sample_abs = fp_abs(sample);
    let peak = if sample_abs > FP_ONE {
        sample_abs
    } else {
        FP_ONE
    };
    let x = fp_div(sample, peak);
    let x2 = fp_mul(x, x);
    let x3 = fp_mul(x, x2);
    let x5 = fp_mul(x3, x2);
    let x6 = fp_mul(x3, x3);
    let y = fp_add(
        fp_sub(fp_add(fp_sub(x, fp_mul(CHEB3, x3)), fp_mul(CHEB5, x5)), fp_mul(CHEB6, x6)),
        fp_mul(fp_mul(CHEB6_DRIVE, x6), drive),
    );
    proof {
        if drive == 0 && sample > i64::MIN {
            crate::fixed::lemma_fp_mul_one_left(sample);
            crate::fixed::lemma_fp_mul_zero(y);
            crate::fixed::lemma_fp_div_zero(fp_add_s(FP_ONE, fp_abs_s(y)));
        }
    }
    fp_add(
        fp_mul(dry, sample),
        fp_div(fp_mul(fp_sub(FP_ONE, dry), y), fp_add(FP_ONE, fp_abs(y))),
    )
}

/// The running sum of the eight-harmonic stack, carrying the evolving
/// strength: odd orders add weighted cosine and sine components, even orders
/// first rescale the strength (orders four and six), and add a sine
/// component.
#[verifier::opaque]
pub open spec fn b_bass_step_s(signal: i64, summed: i64, strength: i64, j: int) -> (i64, i64) {
    let angle = fp_mul_s(signal, fp_from_int_s(j));
    if j % 2 == 1 {
        let component = fp_mul_s(fp_mul_s(strength, FP_THREE), fp_cos_s(angle));
        let component2 = fp_mul_s(strength, fp_sin_s(angle));
        (fp_add_s(summed, fp_add_s(component, component2)), strength)
    } else {
        let scaled = if j == 4 {
            fp_mul_s(strength, FP_06)
        } else if j == 6 {
            fp_mul_s(strength, FP_FOUR)
        } else {
            strength
        };
        (fp_add_s(summed, fp_mul_s(scaled, fp_sin_s(angle))), scaled)
    }
}

/// The eight-harmonic stack: a mix of sine and cosine components at integer
/// multiples of the input, with the strength rescaled at orders four and six,
/// minus the input.
pub open spec fn b_bass_saturation_s(signal: i64, harmonic_strength: i64) -> i64 {
    let s1 = b_bass_step_s(signal, 0, harmonic_strength, 1);
    let s2 = b_bass_step_s(signal, s1.0, s1.1, 2);
    let s3 = b_bass_step_s(signal, s2.0, s2.1, 3);
    let s4 = b_bass_step_s(signal, s3.0, s3.1, 4);
    let s5 = b_bass_step_s(signal, s4.0, s4.1, 5);
    let s6 = b_bass_step_s(signal, s5.0, s5.1, 6);
    let s7 = b_bass_step_s(signal, s6.0, s6.1, 7);
    let s8 = b_bass_step_s(signal, s7.0, s7.1, 8);
    fp_sub_s(s8.0, signal)
}

fn b_bass_step(signal: i64, summed: i64, strength: i64, j: i64) -> (r: (i64, i64))
    requires
        1 <= j <= 8,
    ensures
        r == b_bass_step_s(signal, summed, strength, j as int),
{
    proof {
        reveal(b_bass_step_s);
    }
    let angle = fp_mul(signal, fp_from_int(j));
    if j % 2 == 1 {
        let component = fp_mul(fp_mul(strength, FP_THREE), fp_cos(angle));
        let component2 = fp_mul(strength, fp_sin(angle));
        (fp_add(summed, fp_add(component, component2)), strength)
    } else {
        let scaled = if j == 4 {
            fp_mul(strength, FP_06)
        } else if j == 6 {
            fp_mul(strength, FP_FOUR)
        } else {
            strength
        };
        (fp_add(summed, fp_mul(scaled, fp_sin(angle))), scaled)
    }
}

/// The eight-harmonic stack. It strays from the negated input by a bounded
/// amount: the result's magnitude is at most the input's plus one hundred
/// sixty-eight times the strength's, as each order moves the sum by at most
/// twelve times the strength it enters with and order six can quadruple the
/// strength the last two orders carry.
#[verifier::rlimit(50)]
pub fn b_bass_saturation(signal: i64, harmonic_strength: i64) -> (r: i64)
    ensures
        r == b_bass_saturation_s(signal, harmonic_strength),
        abs_i(r as int) <= abs_i(signal as int) + 168 * abs_i(harmonic_strength as int),
{
    let ghost a = abs_i(harmonic_strength as int);
    let s1 = b_bass_step(signal, 0, harmonic_strength, 1);
    proof {
        lemma_b_bass_step_bounded(signal, 0, harmonic_strength, 1);
        assert(abs_i(s1.0 as int) <= 12 * a && s1.1 == harmonic_strength);
    }
    let s2 = b_bass_step(signal, s1.0, s1.1, 2);
    proof {
        lemma_b_bass_step_bounded(signal, s1.0, s1.1, 2);
        assert(abs_i(s2.0 as int) <= 24 * a && s2.1 == harmonic_strength);
    }
    let s3 = b_bass_step(signal, s2.0, s2.1, 3);
    proof {
        lemma_b_bass_step_bounded(signal, s2.0, s2.1, 3);
        assert(abs_i(s3.0 as int) <= 36 * a && s3.1 == harmonic_strength);
    }
    let s4 = b_bass_step(signal, s3.0, s3.1, 4);
    proof {
        lemma_b_bass_step_bounded(signal, s3.0, s3.1, 4);
        assert(abs_i(s4.0 as int) <= 48 * a && abs_i(s4.1 as int) <= a);
    }
    let s5 = b_bass_step(signal, s4.0, s4.1, 5);
    proof {
        lemma_b_bass_step_bounded(signal, s4.0, s4.1, 5);
        assert(abs_i(s5.0 as int) <= 60 * a && abs_i(s5.1 as int) <= a);
    }
    let s6 = b_bass_step(signal, s5.0, s5.1, 6);
    proof {
        lemma_b_bass_step_bounded(signal, s5.0, s5.1, 6);
        assert(abs_i(s6.0 as int) <= 72 * a && abs_i(s6.1 as int) <= 4 * a);
    }
    let s7 = b_bass_step(signal, s6.0, s6.1, 7);
    proof {
        lemma_b_bass_step_bounded(signal, s6.0, s6.1, 7);
        assert(abs_i(s7.0 as int) <= 120 * a && abs_i(s7.1 as int) <= 4 * a);
    }
    let s8 = b_bass_step(signal, s7.0, s7.1, 8);
    proof {
        lemma_b_bass_step_bounded(signal, s7.0, s7.1, 8);
        assert(abs_i(s8.0 as int) <= 168 * a);
    }
    fp_sub(s8.0, signal)
}

/// One order of the seven-harmonic difference stack folded into the running
/// sum.
pub open spec fn c_bass_step_s(signal: i64, harmonic_strength: i64, summed: i64, j: int) -> i64 {
    let angle = fp_mul_s(signal, fp_from_int_s(j));
    let component = fp_sub_s(fp_mul_s(fp_mul_s(harmonic_strength, FP_03), fp_sin_s(angle)), signal);
    let component2 = fp_sub_s(fp_mul_s(harmonic_strength, fp_cos_s(angle)), signal);
    fp_add_s(summed, fp_add_s(component, component2))
}

fn c_bass_step(signal: i64, harmonic_strength: i64, summed: i64, j: i64) -> (r: i64)
    ensures
        r == c_bass_step_s(signal, harmonic_strength, summed, j as int),
{
    let angle = fp_mul(signal, fp_from_int(j));
    let component = fp_sub(fp_mul(fp_mul(harmonic_strength, FP_03), fp_sin(angle)), signal);
    let component2 = fp_sub(fp_mul(harmonic_strength, fp_cos(angle)), signal);
    fp_add(summed, fp_add(component, component2))
}

/// One step of the eight-harmonic stack moves the sum by at most twelve
/// times the strength it enters with, and can at most quadruple the strength
/// it carries out (at order six; order four shrinks it, every other order
/// keeps it).
proof fn lemma_b_bass_step_bounded(signal: i64, summed: i64, strength: i64, j: int)
    requires
        1 <= j <= 8,
        summed >= -i64::MAX,
    ensures
        abs_i(b_bass_step_s(signal, summed, strength, j).0 as int - summed) <= 12 * abs_i(
            strength as int,
        ),
        b_bass_step_s(signal, summed, strength, j).0 >= -i64::MAX,
        j % 2 == 1 || j == 2 || j == 8 ==> b_bass_step_s(signal, summed, strength, j).1
            == strength,
        j == 4 ==> abs_i(b_bass_step_s(signal, summed, strength, j).1 as int) <= abs_i(
            strength as int,
        ),
        abs_i(b_bass_step_s(signal, summed, strength, j).1 as int) <= 4 * abs_i(strength as int),
{
    reveal(b_bass_step_s);
    let bound = abs_i(strength as int);
    let angle = fp_mul_s(signal, fp_from_int_s(j));
    crate::math::lemma_sin_bounded(angle);
    crate::math::lemma_cos_bounded(angle);
    if j % 2 == 1 {
        let tripled = fp_mul_s(strength, FP_THREE);
        crate::fixed::lemma_fp_mul_magnitude(strength, FP_THREE, bound, FP_THREE as int);
        assert(bound * (FP_THREE as int) == (3 * bound) * FP_ONE) by (nonlinear_arith);
        vstd::arithmetic::div_mod::lemma_div_multiples_vanish(3 * bound, FP_ONE as int);
        crate::fixed::lemma_fp_mul_magnitude(
            tripled,
            fp_cos_s(angle),
            3 * bound,
            crate::math::FP_THREE as int,
        );
        assert((3 * bound) * (FP_THREE as int) == (9 * bound) * FP_ONE) by (nonlinear_arith);
        vstd::arithmetic::div_mod::lemma_div_multiples_vanish(9 * bound, FP_ONE as int);
        crate::fixed::lemma_fp_mul_magnitude(
            strength,
            fp_sin_s(angle),
            bound,
            crate::math::FP_THREE as int,
        );
        assert(bound * (FP_THREE as int) == (3 * bound) * FP_ONE) by (nonlinear_arith);
    } else {
        let scaled = if j == 4 {
            fp_mul_s(strength, FP_06)
        } else if j == 6 {
            fp_mul_s(strength, FP_FOUR)
        } else {
            strength
        };
        if j == 4 {
            crate::fixed::lemma_fp_mul_magnitude(strength, FP_06, bound, FP_ONE as int);
            assert(bound * (FP_ONE as int) == (FP_ONE as int) * bound) by (nonlinear_arith);
            vstd::arithmetic::div_mod::lemma_div_multiples_vanish(bound, FP_ONE as int);
        } else if j == 6 {
            crate::fixed::lemma_fp_mul_magnitude(strength, FP_FOUR, bound, FP_FOUR as int);
            assert(bound * (FP_FOUR as int) == (4 * bound) * FP_ONE) by (nonlinear_arith);
            vstd::arithmetic::div_mod::lemma_div_multiples_vanish(4 * bound, FP_ONE as int);
        }
        assert(abs_i(scaled as int) <= 4 * bound);
        crate::fixed::lemma_fp_mul_magnitude(
            scaled,
            fp_sin_s(angle),
            4 * bound,
            crate::math::FP_THREE as int,
        );
        assert((4 * bound) * (FP_THREE as int) == (12 * bound) * FP_ONE) by (nonlinear_arith);
        vstd::arithmetic::div_mod::lemma_div_multiples_vanish(12 * bound, FP_ONE as int);
    }
}

/// The eight-harmonic stack strays from the negated input by a bounded
/// amount: its magnitude is at most the input's plus one hundred sixty-eight
/// times the strength's.

/// The running sum of the seven-harmonic difference stack.
pub open spec fn c_bass_sum_s(signal: i64, harmonic_strength: i64, n: nat) -> i64
    decreases n,
{
    if n == 0 {
        0
    } else {
        c_bass_step_s(
            signal,
            harmonic_strength,
            c_bass_sum_s(signal, harmonic_strength, (n - 1) as nat),
            n as int,
        )
    }
}

/// The seven-harmonic difference stack: sine and cosine components, each with
/// the input subtracted, averaged over the seven orders.
pub open spec fn c_bass_saturation_s(signal: i64, harmonic_strength: i64) -> i64 {
    fp_div_s(c_bass_sum_s(signal, harmonic_strength, 7), FP_SEVEN)
}

/// The seven-harmonic difference stack.
pub fn c_bass_saturation(signal: i64, harmonic_strength: i64) -> (r: i64)
    ensures
        r == c_bass_saturation_s(signal, harmonic_strength),
{
    let mut summed: i64 = 0;
    let mut j: u32 = 1;
    while j <= 7
        invariant
            1 <= j <= 8,
            summed == c_bass_sum_s(signal, harmonic_strength, (j - 1) as nat),
        decreases 8 - j,
    {
        summed = c_bass_step(signal, harmonic_strength, summed, j as i64);
        j = j + 1;
    }
    fp_div(summed, FP_SEVEN)
}

/// Four configurable sine and cosine components at the first four integer
/// multiples of the input, each with the input subtracted, summed.
pub open spec fn custom_sincos_saturation_s(
    signal: i64,
    harmonic_strength1: i64,
    harmonic_strength2: i64,
    harmonic_strength3: i64,
    harmonic_strength4: i64,
) -> i64 {
    let c1 = fp_sub_s(fp_mul_s(harmonic_strength1, fp_cos_s(fp_mul_s(signal, FP_ONE))), signal);
    let c2 = fp_sub_s(fp_mul_s(harmonic_strength2, fp_sin_s(fp_mul_s(signal, FP_TWO))), signal);
    let c3 = fp_sub_s(fp_mul_s(harmonic_strength3, fp_cos_s(fp_mul_s(signal, FP_THREE))), signal);
    let c4 = fp_sub_s(fp_mul_s(harmonic_strength4, fp_sin_s(fp_mul_s(signal, FP_FOUR))), signal);
    fp_add_s(fp_add_s(fp_add_s(c1, c2), c3), c4)
}

/// Four configurable sine and cosine components.
pub fn custom_sincos_saturation(
    signal: i64,
    harmonic_strength1: i64,
    harmonic_strength2: i64,
    harmonic_strength3: i64,
    harmonic_strength4: i64,
) -> (r: i64)
    ensures
        r == custom_sincos_saturation_s(
            signal,
            harmonic_strength1,
            harmonic_strength2,
            harmonic_strength3,
            harmonic_strength4,
        ),
{
    let c1 = fp_sub(fp_mul(harmonic_strength1, fp_cos(fp_mul(signal, FP_ONE))), signal);
    let c2 = fp_sub(fp_mul(harmonic_strength2, fp_sin(fp_mul(signal, FP_TWO))), signal);
    let c3 = fp_sub(fp_mul(harmonic_strength3, fp_cos(fp_mul(signal, FP_THREE))), signal);
    let c4 = fp_sub(fp_mul(harmonic_strength4, fp_sin(fp_mul(signal, FP_FOUR))), signal);
    fp_add(fp_add(fp_add(c1, c2), c3), c4)
}

} // verus!
