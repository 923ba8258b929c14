//! Fixed-point approximations of the transcendental curves the waveshapers
//! lean on: sine, hyperbolic tangent, arctangent and exponential decay.
//!
//! Each function computes a fixed polynomial or rational approximation of the
//! named curve, built from the saturating operations of [`crate::fixed`]. The
//! contract of each function is the approximation itself; the shapes share the
//! sign symmetry and range of the true curves where the lemmas below state it.

use crate::fixed::{
    fp_abs, fp_abs_s, fp_add, fp_add_s, fp_div, fp_div_s, fp_mul, fp_mul_s, fp_neg, fp_neg_s,
    fp_sub, fp_sub_s, FP_ONE,
};
use vstd::prelude::*;

verus! {

/// Pi on the fixed-point scale.
pub const FP_PI: i64 = 3_141_592_653_590;

/// Two pi on the fixed-point scale.
pub const FP_TWO_PI: i64 = 6_283_185_307_180;

/// Half pi on the fixed-point scale.
pub const FP_HALF_PI: i64 = 1_570_796_326_795;

/// Quarter pi on the fixed-point scale.
pub const FP_QUARTER_PI: i64 = 785_398_163_397;

/// 2 / pi on the fixed-point scale.
pub const FP_TWO_OVER_PI: i64 = 636_619_772_368;

/// ln(10) / 20, the natural-log slope of one decibel of amplitude.
pub const FP_DB_LN: i64 = 115_129_254_650;

pub const FP_THREE: i64 = 3_000_000_000_000;
pub const FP_SIX: i64 = 6_000_000_000_000;
pub const FP_NINE: i64 = 9_000_000_000_000;
pub const FP_24: i64 = 24_000_000_000_000;
pub const FP_27: i64 = 27_000_000_000_000;
pub const FP_64: i64 = 64_000_000_000_000;
pub const FP_120: i64 = 120_000_000_000_000;
pub const FP_5040: i64 = 5_040_000_000_000_000;
pub const ATAN_CURVE: i64 = 273_000_000_000;

/// The rational tangent-curve kernel on a non-negative argument:
/// `m (27 + m^2) / (27 + 9 m^2)` below 3, and exactly 1 from 3 on.
pub open spec fn tanh_mag_s(m: i64) -> i64 {
    if m >= FP_THREE {
        FP_ONE
    } else {
        let m2 = fp_mul_s(m, m);
        let num = fp_mul_s(m, fp_add_s(FP_27, m2));
        let den = fp_add_s(FP_27, fp_mul_s(FP_NINE, m2));
        fp_div_s(num, den)
    }
}

/// Hyperbolic tangent approximation: odd by construction, computed on the
/// magnitude of the argument.
pub open spec fn fp_tanh_s(x: i64) -> i64 {
    if x < 0 {
        fp_neg_s(tanh_mag_s(fp_abs_s(x)))
    } else {
        tanh_mag_s(x)
    }
}

fn tanh_mag(m: i64) -> (r: i64)
    requires
        m >= 0,
    ensures
        r == tanh_mag_s(m),
{
    if m >= FP_THREE {
        FP_ONE
    } else {
        let m2 = fp_mul(m, m);
        let num = fp_mul(m, fp_add(FP_27, m2));
        let den = fp_add(FP_27, fp_mul(FP_NINE, m2));
        fp_div(num, den)
    }
}

/// Hyperbolic tangent approximation.
pub fn fp_tanh(x: i64) -> (r: i64)
    ensures
        r == fp_tanh_s(x),
{
    if x < 0 {
        fp_neg(tanh_mag(fp_abs(x)))
    } else {
        tanh_mag(x)
    }
}

/// The tangent curve is odd: negating the argument negates the result.
pub proof fn lemma_tanh_odd(x: i64)
    requires
        x > i64::MIN,
    ensures
        fp_tanh_s(fp_neg_s(x)) == fp_neg_s(fp_tanh_s(x)),
{
    assert(fp_neg_s(x) == -x);
    if x > 0 {
        assert(fp_abs_s((-x) as i64) == x);
    } else if x < 0 {
        assert(fp_abs_s(x) == -x);
    }
}

/// The tangent curve fixes zero.
pub proof fn lemma_tanh_zero()
    ensures
        fp_tanh_s(0) == 0,
{
    crate::fixed::lemma_fp_mul_zero(0);
    crate::fixed::lemma_fp_mul_zero(FP_NINE);
    crate::fixed::lemma_fp_mul_zero(fp_add_s(FP_27, fp_mul_s(0, 0)));
    crate::fixed::lemma_fp_div_zero(fp_add_s(FP_27, fp_mul_s(FP_NINE, fp_mul_s(0, 0))));
}

/// The normalised arctangent fixes zero.
pub proof fn lemma_atan_norm_zero()
    ensures
        fp_atan_norm_s(0) == 0,
{
    crate::fixed::lemma_fp_mul_zero(FP_QUARTER_PI);
    crate::fixed::lemma_fp_mul_zero(fp_sub_s(FP_ONE, 0));
    crate::fixed::lemma_fp_mul_zero(ATAN_CURVE);
    assert(atan_unit_s(0) == 0);
    crate::fixed::lemma_fp_mul_zero(FP_TWO_OVER_PI);
}

/// Remainder toward zero, the remainder of hardware signed division.
pub open spec fn rtz_s(x: i64, d: i64) -> int
    recommends
        d > 0,
{
    if x >= 0 {
        x as int % d as int
    } else {
        -((-(x as int)) % d as int)
    }
}

/// An angle folded into `[-pi/2, pi/2]`: reduced modulo two pi into
/// `(-pi, pi)`, then reflected about the nearest vertical axis.
pub open spec fn angle_fold_s(x: i64) -> i64 {
    let r = rtz_s(x, FP_TWO_PI);
    let c = if r > FP_PI as int {
        r - FP_TWO_PI
    } else if r < -(FP_PI as int) {
        r + FP_TWO_PI
    } else {
        r
    };
    if c > FP_HALF_PI as int {
        (FP_PI - c) as i64
    } else if c < -(FP_HALF_PI as int) {
        (-FP_PI - c) as i64
    } else {
        c as i64
    }
}

/// The sine Taylor kernel `x - x^3/6 + x^5/120 - x^7/5040`, accurate on the
/// folded range.
pub open spec fn sin_poly_s(x: i64) -> i64 {
    let x2 = fp_mul_s(x, x);
    let x3 = fp_mul_s(x2, x);
    let x5 = fp_mul_s(x3, x2);
    let x7 = fp_mul_s(x5, x2);
    fp_sub_s(
        fp_add_s(fp_sub_s(x, fp_div_s(x3, FP_SIX)), fp_div_s(x5, FP_120)),
        fp_div_s(x7, FP_5040),
    )
}

/// Sine approximation over the whole fixed-point range.
pub open spec fn fp_sin_s(x: i64) -> i64 {
    sin_poly_s(angle_fold_s(x))
}

/// Cosine approximation, as the sine of the argument shifted by half pi.
pub open spec fn fp_cos_s(x: i64) -> i64 {
    fp_sin_s(fp_add_s(x, FP_HALF_PI))
}

fn angle_fold(x: i64) -> (r: i64)
    ensures
        r == angle_fold_s(x),
        -FP_HALF_PI <= r <= FP_HALF_PI,
{
    let m: i64 = x % FP_TWO_PI;
    let c: i64 = if m > FP_PI {
        m - FP_TWO_PI
    } else if m < -FP_PI {
        m + FP_TWO_PI
    } else {
        m
    };
    if c > FP_HALF_PI {
        FP_PI - c
    } else if c < -FP_HALF_PI {
        -FP_PI - c
    } else {
        c
    }
}

/// Sine approximation.
pub fn fp_sin(x: i64) -> (r: i64)
    ensures
        r == fp_sin_s(x),
{
    let f = angle_fold(x);
    let x2 = fp_mul(f, f);
    let x3 = fp_mul(x2, f);
    let x5 = fp_mul(x3, x2);
    let x7 = fp_mul(x5, x2);
    fp_sub(fp_add(fp_sub(f, fp_div(x3, FP_SIX)), fp_div(x5, FP_120)), fp_div(x7, FP_5040))
}

/// Cosine approximation.
pub fn fp_cos(x: i64) -> (r: i64)
    ensures
        r == fp_cos_s(x),
{
    fp_sin(fp_add(x, FP_HALF_PI))
}

proof fn lemma_angle_fold_range(x: i64)
    ensures
        -FP_HALF_PI <= angle_fold_s(x) <= FP_HALF_PI,
{
    if x >= 0 {
        vstd::arithmetic::div_mod::lemma_mod_bound(x as int, FP_TWO_PI as int);
    } else {
        vstd::arithmetic::div_mod::lemma_mod_bound(-(x as int), FP_TWO_PI as int);
    }
}

/// The sine kernel stays within plus and minus three, whatever the argument:
/// the folded angle stays within a half pi and each Taylor term is bounded.
pub proof fn lemma_sin_bounded(x: i64)
    ensures
        fp_abs_s(fp_sin_s(x)) <= FP_THREE,
{
    lemma_angle_fold_range(x);
    let f = angle_fold_s(x);
    let x2 = fp_mul_s(f, f);
    crate::fixed::lemma_fp_mul_magnitude(f, f, 1_600_000_000_000, 1_600_000_000_000);
    assert(1_600_000_000_000int * 1_600_000_000_000 / (FP_ONE as int) == 2_560_000_000_000int);
    let x3 = fp_mul_s(x2, f);
    crate::fixed::lemma_fp_mul_magnitude(x2, f, 2_560_000_000_000, 1_600_000_000_000);
    assert(2_560_000_000_000int * 1_600_000_000_000 / (FP_ONE as int) == 4_096_000_000_000int);
    let x5 = fp_mul_s(x3, x2);
    crate::fixed::lemma_fp_mul_magnitude(x3, x2, 4_096_000_000_000, 2_560_000_000_000);
    assert(4_096_000_000_000int * 2_560_000_000_000 / (FP_ONE as int) == 10_485_760_000_000int);
    let x7 = fp_mul_s(x5, x2);
    crate::fixed::lemma_fp_mul_magnitude(x5, x2, 10_485_760_000_000, 2_560_000_000_000);
    assert(10_485_760_000_000int * 2_560_000_000_000 / (FP_ONE as int) == 26_843_545_600_000int);
    crate::fixed::lemma_fp_div_magnitude(x3, FP_SIX, 4_096_000_000_000);
    assert(4_096_000_000_000int * FP_ONE / (FP_SIX as int) == 682_666_666_666int);
    crate::fixed::lemma_fp_div_magnitude(x5, FP_120, 10_485_760_000_000);
    assert(10_485_760_000_000int * FP_ONE / (FP_120 as int) == 87_381_333_333int);
    crate::fixed::lemma_fp_div_magnitude(x7, FP_5040, 26_843_545_600_000);
    assert(26_843_545_600_000int * FP_ONE / (FP_5040 as int) == 5_326_100_317int);
}

/// The cosine kernel stays within plus and minus three as well.
pub proof fn lemma_cos_bounded(x: i64)
    ensures
        fp_abs_s(fp_cos_s(x)) <= FP_THREE,
{
    lemma_sin_bounded(fp_add_s(x, FP_HALF_PI));
}

/// The arctangent kernel on `[0, 1]`: `pi/4 t + 0.273 t (1 - t)`.
pub open spec fn atan_unit_s(t: i64) -> i64 {
    fp_add_s(
        fp_mul_s(FP_QUARTER_PI, t),
        fp_mul_s(ATAN_CURVE, fp_mul_s(t, fp_sub_s(FP_ONE, t))),
    )
}

/// Arctangent of a non-negative argument, using the reciprocal identity
/// above 1.
pub open spec fn atan_mag_s(m: i64) -> i64 {
    if m <= FP_ONE {
        atan_unit_s(m)
    } else {
        fp_sub_s(FP_HALF_PI, atan_unit_s(fp_div_s(FP_ONE, m)))
    }
}

/// Arctangent approximation scaled by `2 / pi`, so the limit values are
/// plus and minus one; odd by construction.
pub open spec fn fp_atan_norm_s(y: i64) -> i64 {
    if y < 0 {
        fp_neg_s(fp_mul_s(FP_TWO_OVER_PI, atan_mag_s(fp_abs_s(y))))
    } else {
        fp_mul_s(FP_TWO_OVER_PI, atan_mag_s(y))
    }
}

fn atan_unit(t: i64) -> (r: i64)
    ensures
        r == atan_unit_s(t),
{
    fp_add(fp_mul(FP_QUARTER_PI, t), fp_mul(ATAN_CURVE, fp_mul(t, fp_sub(FP_ONE, t))))
}

/// Arctangent approximation scaled by `2 / pi`.
pub fn fp_atan_norm(y: i64) -> (r: i64)
    ensures
        r == fp_atan_norm_s(y),
{
    let m = fp_abs(y);
    let a = if m <= FP_ONE {
        atan_unit(m)
    } else {
        fp_sub(FP_HALF_PI, atan_unit(fp_div(FP_ONE, m)))
    };
    let scaled = fp_mul(FP_TWO_OVER_PI, a);
    if y < 0 {
        fp_neg(scaled)
    } else {
        scaled
    }
}

proof fn lemma_atan_unit_range(t: i64)
    requires
        0 <= t <= FP_ONE,
    ensures
        0 <= atan_unit_s(t) <= FP_HALF_PI,
{
    let first = fp_mul_s(FP_QUARTER_PI, t);
    assert(0 <= FP_QUARTER_PI as int * t <= FP_QUARTER_PI * FP_ONE) by (nonlinear_arith)
        requires
            0 <= t <= FP_ONE,
    ;
    vstd::arithmetic::div_mod::lemma_div_is_ordered(
        FP_QUARTER_PI as int * t,
        FP_QUARTER_PI * FP_ONE,
        FP_ONE as int,
    );
    vstd::arithmetic::div_mod::lemma_div_basics_4(FP_QUARTER_PI as int * t, FP_ONE as int);
    assert(FP_QUARTER_PI * FP_ONE == FP_ONE as int * FP_QUARTER_PI) by (nonlinear_arith);
    vstd::arithmetic::div_mod::lemma_div_multiples_vanish(FP_QUARTER_PI as int, FP_ONE as int);
    assert(0 <= first <= FP_QUARTER_PI);
    let inner = fp_mul_s(t, fp_sub_s(FP_ONE, t));
    assert(0 <= t * (FP_ONE - t) <= FP_ONE as int * FP_ONE) by (nonlinear_arith)
        requires
            0 <= t <= FP_ONE,
    ;
    vstd::arithmetic::div_mod::lemma_div_is_ordered(
        t * (FP_ONE - t),
        FP_ONE as int * FP_ONE,
        FP_ONE as int,
    );
    vstd::arithmetic::div_mod::lemma_div_basics_4(t * (FP_ONE - t), FP_ONE as int);
    vstd::arithmetic::div_mod::lemma_div_multiples_vanish(FP_ONE as int, FP_ONE as int);
    assert(0 <= inner <= FP_ONE);
    let second = fp_mul_s(ATAN_CURVE, inner);
    assert(0 <= ATAN_CURVE as int * inner <= ATAN_CURVE * FP_ONE) by (nonlinear_arith)
        requires
            0 <= inner <= FP_ONE,
    ;
    vstd::arithmetic::div_mod::lemma_div_is_ordered(
        ATAN_CURVE as int * inner,
        ATAN_CURVE * FP_ONE,
        FP_ONE as int,
    );
    vstd::arithmetic::div_mod::lemma_div_basics_4(ATAN_CURVE as int * inner, FP_ONE as int);
    assert(ATAN_CURVE * FP_ONE == FP_ONE as int * ATAN_CURVE) by (nonlinear_arith);
    vstd::arithmetic::div_mod::lemma_div_multiples_vanish(ATAN_CURVE as int, FP_ONE as int);
    assert(0 <= second <= ATAN_CURVE);
}

proof fn lemma_atan_mag_range(m: i64)
    requires
        m >= 0,
    ensures
        0 <= atan_mag_s(m) <= FP_HALF_PI,
{
    if m <= FP_ONE {
        lemma_atan_unit_range(m);
    } else {
        let inv = fp_div_s(FP_ONE, m);
        assert(0 <= FP_ONE as int * FP_ONE <= m as int * FP_ONE) by (nonlinear_arith)
            requires
                m >= FP_ONE,
        ;
        vstd::arithmetic::div_mod::lemma_div_is_ordered(
            FP_ONE as int * FP_ONE,
            m as int * FP_ONE,
            m as int,
        );
        vstd::arithmetic::div_mod::lemma_div_basics_4(FP_ONE as int * FP_ONE, m as int);
        assert(m as int * FP_ONE == m as int * (FP_ONE as int)) by (nonlinear_arith);
        vstd::arithmetic::div_mod::lemma_div_multiples_vanish(FP_ONE as int, m as int);
        assert(0 <= inv <= FP_ONE);
        lemma_atan_unit_range(inv);
    }
}

/// The normalised arctangent stays within plus and minus one, whatever the
/// argument.
pub proof fn lemma_atan_norm_bounded(y: i64)
    ensures
        fp_abs_s(fp_atan_norm_s(y)) <= FP_ONE,
{
    let m = fp_abs_s(y);
    lemma_atan_mag_range(m);
    let a = atan_mag_s(m);
    let v = fp_mul_s(FP_TWO_OVER_PI, a);
    assert(0 <= FP_TWO_OVER_PI as int * a <= FP_TWO_OVER_PI * FP_HALF_PI) by (nonlinear_arith)
        requires
            0 <= a <= FP_HALF_PI,
    ;
    vstd::arithmetic::div_mod::lemma_div_is_ordered(
        FP_TWO_OVER_PI as int * a,
        FP_TWO_OVER_PI * FP_HALF_PI,
        FP_ONE as int,
    );
    vstd::arithmetic::div_mod::lemma_div_basics_4(FP_TWO_OVER_PI as int * a, FP_ONE as int);
    assert(FP_TWO_OVER_PI * FP_HALF_PI == 1000000000000723439000560int) by (nonlinear_arith);
    assert((1000000000000723439000560int) / (FP_ONE as int) == 1000000000000int);
    assert(0 <= v <= FP_ONE);
}

/// The normalised arctangent is odd: negating the argument negates the
/// result.
pub proof fn lemma_atan_norm_odd(y: i64)
    requires
        y > i64::MIN,
    ensures
        fp_atan_norm_s(fp_neg_s(y)) == fp_neg_s(fp_atan_norm_s(y)),
{
    assert(fp_neg_s(y) == -y);
    if y > 0 {
        assert(fp_abs_s((-y) as i64) == y);
    } else if y < 0 {
        assert(fp_abs_s(y) == -y);
    } else {
        lemma_atan_norm_zero();
    }
}

/// The sixty-fourth power, by repeated squaring.
pub open spec fn pow64_s(t: i64) -> i64 {
    let t2 = fp_mul_s(t, t);
    let t4 = fp_mul_s(t2, t2);
    let t8 = fp_mul_s(t4, t4);
    let t16 = fp_mul_s(t8, t8);
    let t32 = fp_mul_s(t16, t16);
    fp_mul_s(t32, t32)
}

/// Decaying exponential approximation `(1 - x/64)^64` for a non-negative
/// argument, clamped to zero where the base would go negative; arguments at
/// or below zero yield exactly one.
pub open spec fn fp_exp_neg_s(x: i64) -> i64 {
    if x <= 0 {
        FP_ONE
    } else {
        let t = fp_sub_s(FP_ONE, fp_div_s(x, FP_64));
        if t <= 0 {
            0
        } else {
            pow64_s(t)
        }
    }
}

/// Decaying exponential approximation.
pub fn fp_exp_neg(x: i64) -> (r: i64)
    ensures
        r == fp_exp_neg_s(x),
{
    if x <= 0 {
        return FP_ONE;
    }
    let t = fp_sub(FP_ONE, fp_div(x, FP_64));
    if t <= 0 {
        return 0;
    }
    let t2 = fp_mul(t, t);
    let t4 = fp_mul(t2, t2);
    let t8 = fp_mul(t4, t4);
    let t16 = fp_mul(t8, t8);
    let t32 = fp_mul(t16, t16);
    fp_mul(t32, t32)
}

/// The rising exponential Taylor kernel `1 + z + z^2/2 + z^3/6 + z^4/24`,
/// accurate for small non-negative arguments.
pub open spec fn exp_poly_s(z: i64) -> i64 {
    let z2 = fp_mul_s(z, z);
    let z3 = fp_mul_s(z2, z);
    let z4 = fp_mul_s(z3, z);
    fp_add_s(
        fp_add_s(fp_add_s(FP_ONE, z), fp_div_s(z2, 2_000_000_000_000)),
        fp_add_s(fp_div_s(z3, FP_SIX), fp_div_s(z4, FP_24)),
    )
}

/// Linear gain of a decibel value, as `exp(db * ln(10) / 20)`.
pub open spec fn fp_gain_from_db_s(db: i64) -> i64 {
    exp_poly_s(fp_mul_s(db, FP_DB_LN))
}

/// Linear gain of a decibel value.
pub fn fp_gain_from_db(db: i64) -> (r: i64)
    ensures
        r == fp_gain_from_db_s(db),
{
    let z = fp_mul(db, FP_DB_LN);
    let z2 = fp_mul(z, z);
    let z3 = fp_mul(z2, z);
    let z4 = fp_mul(z3, z);
    fp_add(
        fp_add(fp_add(FP_ONE, z), fp_div(z2, 2_000_000_000_000)),
        fp_add(fp_div(z3, FP_SIX), fp_div(z4, FP_24)),
    )
}

} // verus!
