//! Mixing and conditioning: DC blocking, dry/wet blending, output gain and
//! level metering.

use crate::fixed::{
    abs_i, fp_add, fp_add_s, fp_div, fp_div_s, fp_mul, fp_mul_s, fp_sub, fp_sub_s,
    lemma_fp_mul_one, FP_ONE,
};
use crate::math::{fp_exp_neg, fp_exp_neg_s};
use vstd::prelude::*;

verus! {

/// The feed-forward weight of the DC blocker's previous input.
pub const HP_B1: i64 = -1_000_000_000_000;

/// The feedback weight of the DC blocker, negated: the output keeps 0.995 of
/// its previous value.
pub const HP_A1: i64 = -995_000_000_000;

/// Natural logarithm of four, the decay constant of a 12 dB drop.
pub const FP_LN4: i64 = 1_386_294_361_120;

/// One thousand, for millisecond conversions.
pub const FP_1000: i64 = 1_000_000_000_000_000;

/// A single-pole DC-blocking high-pass filter:
/// `y[n] = x[n] - x[n-1] + 0.995 y[n-1]`, with persistent previous input and
/// output.
pub struct DcBlocker {
    pub prev_in: i64,
    pub prev_out: i64,
}

/// One DC-blocker step: the new state and the filtered sample.
pub open spec fn dc_block_s(st: DcBlocker, x: i64) -> (DcBlocker, i64) {
    let y = fp_sub_s(
        fp_add_s(fp_mul_s(FP_ONE, x), fp_mul_s(HP_B1, st.prev_in)),
        fp_mul_s(HP_A1, st.prev_out),
    );
    (DcBlocker { prev_in: x, prev_out: y }, y)
}

impl DcBlocker {
    /// A blocker at rest.
    pub fn new() -> (st: DcBlocker)
        ensures
            st.prev_in == 0,
            st.prev_out == 0,
    {
        DcBlocker { prev_in: 0, prev_out: 0 }
    }

    /// Filter one sample.
    pub fn step(&mut self, x: i64) -> (y: i64)
        ensures
            (*final(self), y) == dc_block_s(*old(self), x),
    {
        let y = fp_sub(
            fp_add(fp_mul(FP_ONE, x), fp_mul(HP_B1, self.prev_in)),
            fp_mul(HP_A1, self.prev_out),
        );
        self.prev_in = x;
        self.prev_out = y;
        y
    }
}

/// On a constant input stream the DC blocker contracts: once the previous
/// input equals the current one, each step scales the output magnitude by at
/// most 995/1000, so a constant input converges to zero output.
pub proof fn lemma_dc_blocker_decay(st: DcBlocker, x: i64)
    requires
        st.prev_in == x,
        x > i64::MIN,
        st.prev_out > i64::MIN,
    ensures
        dc_block_s(st, x).0.prev_in == x,
        dc_block_s(st, x).0.prev_out == dc_block_s(st, x).1,
        1000 * abs_i(dc_block_s(st, x).1 as int) <= 995 * abs_i(st.prev_out as int),
{
    let p = st.prev_out;
    lemma_fp_mul_one(x);
    assert(fp_mul_s(HP_B1, x) == -x) by {
        assert(abs_i(HP_B1 as int * x) == FP_ONE * abs_i(x as int)) by (nonlinear_arith)
            requires
                HP_B1 == -1_000_000_000_000 && FP_ONE == 1_000_000_000_000,
        ;
        vstd::arithmetic::div_mod::lemma_div_multiples_vanish(abs_i(x as int), FP_ONE as int);
        assert(x != 0 ==> ((HP_B1 as int * x < 0) == (x > 0))) by (nonlinear_arith)
            requires
                HP_B1 == -1_000_000_000_000,
        ;
    }
    assert(fp_add_s(x, (-x) as i64) == 0);
    let fed = fp_mul_s(HP_A1, p);
    assert(abs_i(HP_A1 as int * p) == 995_000_000_000 * abs_i(p as int)) by (nonlinear_arith)
        requires
            HP_A1 == -995_000_000_000,
    ;
    assert(abs_i(HP_A1 as int * p) / (FP_ONE as int) == (995 * abs_i(p as int)) / 1000) by {
        vstd::arithmetic::div_mod::lemma_div_denominator(
            995_000_000_000 * abs_i(p as int),
            1_000_000_000,
            1000,
        );
        assert(995_000_000_000 * abs_i(p as int) == (995 * abs_i(p as int)) * 1_000_000_000)
            by (nonlinear_arith);
        vstd::arithmetic::div_mod::lemma_div_multiples_vanish(
            995 * abs_i(p as int),
            1_000_000_000,
        );
    }
    let q = (995 * abs_i(p as int)) / 1000;
    assert(0 <= q && 1000 * q <= 995 * abs_i(p as int)) by {
        vstd::arithmetic::div_mod::lemma_div_pos_is_pos(995 * abs_i(p as int), 1000);
        vstd::arithmetic::div_mod::lemma_fundamental_div_mod(995 * abs_i(p as int), 1000);
        vstd::arithmetic::div_mod::lemma_mod_bound(995 * abs_i(p as int), 1000);
    }
    assert(q <= abs_i(p as int)) by (nonlinear_arith)
        requires
            0 <= q,
            1000 * q <= 995 * abs_i(p as int),
            0 <= abs_i(p as int),
    ;
}

/// The DC blocker stepped over a constant-input run.
pub open spec fn dc_run_s(st: DcBlocker, x: i64, n: nat) -> DcBlocker
    decreases n,
{
    if n == 0 {
        st
    } else {
        dc_block_s(dc_run_s(st, x, (n - 1) as nat), x).0
    }
}

/// Over a whole constant-input run the blocker's output decays
/// geometrically: after `n` steps the magnitude is at most `(995/1000)^n` of
/// where it started, so a constant input converges to zero output.
pub proof fn lemma_dc_blocker_converges(st: DcBlocker, x: i64, n: nat)
    requires
        st.prev_in == x,
        x > i64::MIN,
        st.prev_out > i64::MIN,
    ensures
        dc_run_s(st, x, n).prev_in == x,
        -i64::MAX <= dc_run_s(st, x, n).prev_out,
        abs_i(dc_run_s(st, x, n).prev_out as int) <= abs_i(st.prev_out as int),
        vstd::arithmetic::power::pow(1000, n) * abs_i(dc_run_s(st, x, n).prev_out as int)
            <= vstd::arithmetic::power::pow(995, n) * abs_i(st.prev_out as int),
    decreases n,
{
    reveal(vstd::arithmetic::power::pow);
    if n > 0 {
        lemma_dc_blocker_converges(st, x, (n - 1) as nat);
        let mid = dc_run_s(st, x, (n - 1) as nat);
        lemma_dc_blocker_decay(mid, x);
        let y0 = abs_i(st.prev_out as int);
        let ym = abs_i(mid.prev_out as int);
        let yn = abs_i(dc_run_s(st, x, n).prev_out as int);
        let p1000 = vstd::arithmetic::power::pow(1000, (n - 1) as nat);
        let p995 = vstd::arithmetic::power::pow(995, (n - 1) as nat);
        vstd::arithmetic::power::lemma_pow_positive(1000, (n - 1) as nat);
        vstd::arithmetic::power::lemma_pow_positive(995, (n - 1) as nat);
        assert(vstd::arithmetic::power::pow(1000, n) == 1000 * p1000);
        assert(vstd::arithmetic::power::pow(995, n) == 995 * p995);
        assert((1000 * p1000) * yn <= (995 * p995) * y0) by (nonlinear_arith)
            requires
                1000 * yn <= 995 * ym,
                p1000 * ym <= p995 * y0,
                p1000 > 0,
                p995 > 0,
                yn >= 0,
                ym >= 0,
                y0 >= 0,
        ;
    }
}

/// The dry/wet blend: the dry sample plus the processed sample scaled by the
/// wet gain. This additive law is the one blend the engine uses, for every
/// algorithm family: the dry signal always passes at full level.
pub open spec fn mix_dry_wet_s(dry: i64, processed: i64, wet_gain: i64) -> i64 {
    fp_add_s(dry, fp_mul_s(processed, wet_gain))
}

/// The dry/wet blend.
pub fn mix_dry_wet(dry: i64, processed: i64, wet_gain: i64) -> (r: i64)
    ensures
        r == mix_dry_wet_s(dry, processed, wet_gain),
{
    fp_add(dry, fp_mul(processed, wet_gain))
}

/// One meter update: a rising amplitude is taken as is, a falling one decays
/// the reading exponentially toward the amplitude.
pub open spec fn meter_step_s(current: i64, amplitude: i64, decay_weight: i64) -> i64 {
    if amplitude > current {
        amplitude
    } else {
        fp_add_s(
            fp_mul_s(current, decay_weight),
            fp_mul_s(amplitude, fp_sub_s(FP_ONE, decay_weight)),
        )
    }
}

/// One meter update.
pub fn meter_step(current: i64, amplitude: i64, decay_weight: i64) -> (r: i64)
    ensures
        r == meter_step_s(current, amplitude, decay_weight),
{
    if amplitude > current {
        amplitude
    } else {
        fp_add(fp_mul(current, decay_weight), fp_mul(amplitude, fp_sub(FP_ONE, decay_weight)))
    }
}

/// The per-sample meter decay weight for a decay time in milliseconds: the
/// weight under which a reading falls by 12 dB over that time.
pub open spec fn meter_decay_weight_s(sample_rate: i64, decay_ms: i64) -> i64 {
    fp_exp_neg_s(fp_div_s(FP_LN4, fp_div_s(fp_mul_s(sample_rate, decay_ms), FP_1000)))
}

/// The per-sample meter decay weight for a decay time in milliseconds.
pub fn meter_decay_weight(sample_rate: i64, decay_ms: i64) -> (r: i64)
    ensures
        r == meter_decay_weight_s(sample_rate, decay_ms),
{
    fp_exp_neg(fp_div(FP_LN4, fp_div(fp_mul(sample_rate, decay_ms), FP_1000)))
}

} // verus!
