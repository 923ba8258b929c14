//! The per-sample engine: subharmonic synthesis, harmonic generation,
//! hardness coloration, DC blocking and the dry/wet output stage.
//!
//! The synthesiser extracts a narrow low band from the input through a
//! twenty-two stage one-pole residual cascade, divides its frequency by two
//! with a zero-crossing driven sign toggle, and smooths the result through a
//! three-phase accumulator network whose round-robin selection decorrelates
//! the smoothing so the three-sample cycle leaves no artifact of its own.
//! Level metering is left to the caller, which can feed the produced samples
//! to [`crate::mix::meter_step`].

use crate::fixed::{
    fp_abs, fp_abs_s, fp_add, fp_add_s, fp_div, fp_div_s, fp_mul, fp_mul_s, fp_neg, fp_neg_s,
    fp_sub, fp_sub_s, FP_ONE,
};
use crate::mix::{dc_block_s, mix_dry_wet_s, DcBlocker};
use crate::saturation::{
    b_bass_saturation, b_bass_saturation_s, c_bass_saturation, c_bass_saturation_s,
    chebyshev_hoof, chebyshev_hoof_s, custom_sincos_saturation, custom_sincos_saturation_s,
    leaf_saturation, leaf_saturation_s, tape_transfer, tape_transfer_s, FP_HALF, FP_TWO,
};
use crate::sweeten;
use crate::sweeten::{sweeten_s, BUFFER_SLOTS};
use vstd::prelude::*;

verus! {

/// The harmonic algorithm selector.
#[derive(Clone, Copy, PartialEq, Eq, Structural, Debug)]
pub enum AlgorithmType {
    ABass3,
    ABass2,
    BBass,
    CBass,
    TanH,
    CustomSliders,
}

/// The smoothed control values the engine consumes each sample. Gains are
/// linear factors; the sample rate is in hertz, on the fixed-point scale.
#[derive(Clone, Copy)]
pub struct EngineParams {
    pub gain: i64,
    pub hoof_hardness: i64,
    pub sub_gain: i64,
    pub sub_drive: i64,
    pub harmonics: i64,
    pub h_algorithm: AlgorithmType,
    pub custom_harmonics1: i64,
    pub custom_harmonics2: i64,
    pub custom_harmonics3: i64,
    pub custom_harmonics4: i64,
    pub output_gain: i64,
    pub dry_wet: i64,
    pub sample_rate: i64,
}

/// The scalar filter state of the subharmonic synthesiser.
pub struct SubCore {
    /// The rolling low-pass signal, left as the cascade's final residual.
    pub lp: i64,
    /// The cascade coefficient derived from the head-bump frequency.
    pub sub_iir: i64,
    /// The leaky noise gate that detects silence.
    pub osc_gate: i64,
    /// Input smoothing stages.
    pub drive_a: i64,
    pub drive_b: i64,
    /// Sub-bump smoothing stages.
    pub drive_c: i64,
    pub drive_d: i64,
    /// Output band-limiting stages.
    pub drive_e: i64,
    pub drive_f: i64,
    /// Head-bump residual stages.
    pub head_w: i64,
    pub head_x: i64,
    /// The sub-bump residual stage.
    pub bump_y: i64,
    /// The tail smoothing stage.
    pub tail_z: i64,
    /// The three phase accumulators of the cross-feedback network.
    pub bump_a: i64,
    pub bump_b: i64,
    pub bump_c: i64,
    /// The octave toggle: flipped once per upward zero crossing of `lp`.
    pub sub_octave: bool,
    /// Whether `lp` has been at or below zero since the last flip.
    pub was_negative: bool,
}

/// The engine: the synthesiser core, its residual cascade, the harmonic
/// stacker's buffer, the phase counter and the per-channel DC blockers.
pub struct Subhoofer {
    pub core: SubCore,
    pub iir_cascade: Vec<i64>,
    pub bass_flip_counter: u8,
    pub buffer: Vec<i64>,
    pub dc_l: DcBlocker,
    pub dc_r: DcBlocker,
}

/// The number of residual stages in the main cascade.
pub const CASCADE_STAGES: usize = 22;

/// One tenth, the hardness-to-frequency slope.
pub const FP_TENTH: i64 = 100_000_000_000;

/// The head-bump frequency floor.
pub const FP_FREQ_BASE: i64 = 20_000_000_000;

/// The reference divisor that turns a head-bump frequency into a cascade
/// coefficient.
pub const FP_44_1: i64 = 44_100_000_000_000;

/// The reference sample rate, 44.1 kHz.
pub const FP_44100: i64 = 44_100_000_000_000_000;

/// The input attenuation ahead of the cascade.
pub const FP_4096: i64 = 4_096_000_000_000_000;

/// The silence detector's rise factor.
pub const FP_TEN: i64 = 10_000_000_000_000;

/// The silence detector's fixed decay per sample.
pub const FP_MILLI: i64 = 1_000_000_000;

/// The silence-dependent bias scale.
pub const FP_CLAMP_EPS: i64 = 10_000_000;

/// The cascade's makeup factor.
pub const FP_256: i64 = 256_000_000_000_000;

/// The cross-feed weight each phase accumulator grants the other two.
pub const FAKE_RANDOM: i64 = 415_000_000_000;

/// The weight each phase accumulator keeps for itself.
pub const INV_FAKE_RANDOM: i64 = 170_000_000_000;

/// One-pole low-pass: the accumulator keeps `1 - k` of itself and takes `k`
/// of the input.
pub open spec fn one_pole_s(acc: i64, x: i64, k: i64) -> i64 {
    fp_add_s(fp_mul_s(acc, fp_sub_s(FP_ONE, k)), fp_mul_s(x, k))
}

fn one_pole(acc: i64, x: i64, k: i64) -> (r: i64)
    ensures
        r == one_pole_s(acc, x, k),
{
    fp_add(fp_mul(acc, fp_sub(FP_ONE, k)), fp_mul(x, k))
}

/// The leaky noise gate: rises with the low band's magnitude, decays by a
/// fixed step, clamped to the unit range.
pub open spec fn gate_s(gate: i64, lp: i64) -> i64 {
    let risen = fp_add_s(gate, fp_abs_s(fp_mul_s(lp, FP_TEN)));
    let decayed = fp_sub_s(risen, FP_MILLI);
    if decayed > FP_ONE {
        FP_ONE
    } else if decayed < 0 {
        0
    } else {
        decayed
    }
}

fn gate_step(gate: i64, lp: i64) -> (r: i64)
    ensures
        r == gate_s(gate, lp),
{
    let risen = fp_add(gate, fp_abs(fp_mul(lp, FP_TEN)));
    let decayed = fp_sub(risen, FP_MILLI);
    if decayed > FP_ONE {
        FP_ONE
    } else if decayed < 0 {
        0
    } else {
        decayed
    }
}

/// The zero-crossing decision: a positive low-pass value after a
/// non-positive stretch flips the octave toggle and rearms; a non-positive
/// value arms the detector; anything else leaves both untouched. Returns the
/// new toggle and the new armed flag.
pub open spec fn zero_cross_s(lp: i64, was_negative: bool, sub_octave: bool) -> (bool, bool) {
    if lp > 0 {
        if was_negative {
            (!sub_octave, false)
        } else {
            (sub_octave, was_negative)
        }
    } else {
        (sub_octave, true)
    }
}

fn zero_cross(lp: i64, was_negative: bool, sub_octave: bool) -> (r: (bool, bool))
    ensures
        r == zero_cross_s(lp, was_negative, sub_octave),
{
    if lp > 0 {
        if was_negative {
            (!sub_octave, false)
        } else {
            (sub_octave, was_negative)
        }
    } else {
        (sub_octave, true)
    }
}

/// The octave toggle and its detector stepped over a run of low-pass values:
/// the final toggle, the final armed flag, and how often the toggle flipped.
pub open spec fn toggle_run_s(lps: Seq<i64>, was_negative: bool, sub_octave: bool) -> (
    bool,
    bool,
    nat,
)
    decreases lps.len(),
{
    if lps.len() == 0 {
        (sub_octave, was_negative, 0)
    } else {
        let step = zero_cross_s(lps[0], was_negative, sub_octave);
        let rest = toggle_run_s(lps.drop_first(), step.1, step.0);
        (rest.0, rest.1, rest.2 + (if lps[0] > 0 && was_negative {
            1nat
        } else {
            0nat
        }))
    }
}

/// The upward zero crossings of a run: the samples above zero whose
/// predecessor was at or below zero, seeded by whether the signal starts
/// from below.
pub open spec fn upward_crossings_s(lps: Seq<i64>, below: bool) -> nat
    decreases lps.len(),
{
    if lps.len() == 0 {
        0
    } else {
        (if lps[0] > 0 && below {
            1nat
        } else {
            0nat
        }) + upward_crossings_s(lps.drop_first(), lps[0] <= 0)
    }
}

/// The octave toggle flips exactly once per upward zero crossing of the
/// low-pass signal, and never on a sign-preserving sample: over any run, the
/// number of flips equals the number of upward crossings.
pub proof fn lemma_toggle_flips_once_per_crossing(
    lps: Seq<i64>,
    was_negative: bool,
    sub_octave: bool,
)
    ensures
        toggle_run_s(lps, was_negative, sub_octave).2 == upward_crossings_s(lps, was_negative),
    decreases lps.len(),
{
    if lps.len() > 0 {
        let step = zero_cross_s(lps[0], was_negative, sub_octave);
        assert(step.1 == (lps[0] <= 0));
        lemma_toggle_flips_once_per_crossing(lps.drop_first(), step.1, step.0);
    }
}

/// The phase counter iterated over a run.
pub open spec fn counter_iter_s(c: u8, n: nat) -> u8
    decreases n,
{
    if n == 0 {
        c
    } else {
        next_counter_s(counter_iter_s(c, (n - 1) as nat))
    }
}

/// The phase counter steps strictly one, two, three, and back to one.
pub proof fn lemma_counter_steps()
    ensures
        next_counter_s(1) == 2,
        next_counter_s(2) == 3,
        next_counter_s(3) == 1,
{
}

proof fn lemma_counter_range(c: u8, n: nat)
    requires
        1 <= c <= 3,
    ensures
        1 <= counter_iter_s(c, n) <= 3,
    decreases n,
{
    if n > 0 {
        lemma_counter_range(c, (n - 1) as nat);
    }
}

/// Over any run whose length is divisible by three, the phase counter comes
/// back to where it started: the cycle has period three, with no skips and
/// no repeats.
pub proof fn lemma_counter_cycles(c: u8, n: nat)
    requires
        1 <= c <= 3,
        n % 3 == 0,
    ensures
        counter_iter_s(c, n) == c,
    decreases n,
{
    if n > 0 {
        assert(n >= 3);
        lemma_counter_cycles(c, (n - 3) as nat);
        lemma_counter_range(c, (n - 3) as nat);
        assert(counter_iter_s(c, (n - 2) as nat) == next_counter_s(counter_iter_s(c, (n - 3) as nat)));
        assert(counter_iter_s(c, (n - 1) as nat) == next_counter_s(counter_iter_s(c, (n - 2) as nat)));
        assert(counter_iter_s(c, n) == next_counter_s(counter_iter_s(c, (n - 1) as nat)));
    }
}

/// A run of residual one-pole stages: each stage smooths the running signal
/// and subtracts its own smoothed value from it, leaving the residual.
pub open spec fn cascade_run_s(stages: Seq<i64>, sig: i64, k: i64, lo: int, n: nat) -> (
    Seq<i64>,
    i64,
)
    decreases n,
{
    if n == 0 {
        (stages, sig)
    } else {
        let acc = one_pole_s(stages[lo], sig, k);
        cascade_run_s(stages.update(lo, acc), fp_sub_s(sig, acc), k, lo + 1, (n - 1) as nat)
    }
}

fn cascade_run(stages: &mut Vec<i64>, sig: i64, k: i64) -> (out: i64)
    requires
        old(stages)@.len() == CASCADE_STAGES,
    ensures
        final(stages)@.len() == CASCADE_STAGES,
        (final(stages)@, out) == cascade_run_s(
            old(stages)@,
            sig,
            k,
            0,
            old(stages)@.len() as nat,
        ),
{
    let mut running = sig;
    let mut j: usize = 0;
    let n = stages.len();
    while j < n
        invariant
            j <= n,
            n == stages@.len(),
            n == CASCADE_STAGES,
            cascade_run_s(old(stages)@, sig, k, 0, n as nat) == cascade_run_s(
                stages@,
                running,
                k,
                j as int,
                (n - j) as nat,
            ),
        decreases n - j,
    {
        let acc = one_pole(stages[j], running, k);
        stages[j] = acc;
        running = fp_sub(running, acc);
        j = j + 1;
    }
    running
}

/// A residual cascade over zeroed stages with a zero signal stays zero.
pub proof fn lemma_cascade_zero(stages: Seq<i64>, k: i64, lo: int, n: nat)
    requires
        0 <= lo,
        lo + n <= stages.len(),
        forall|j: int| lo <= j < lo + n ==> stages[j] == 0,
    ensures
        cascade_run_s(stages, 0, k, lo, n).0.len() == stages.len(),
        cascade_run_s(stages, 0, k, lo, n).1 == 0,
        forall|j: int|
            0 <= j < stages.len() ==> cascade_run_s(stages, 0, k, lo, n).0[j] == if lo <= j < lo
                + n {
                0i64
            } else {
                stages[j]
            },
    decreases n,
{
    if n > 0 {
        let acc = one_pole_s(stages[lo], 0, k);
        assert(acc == 0);
        let upd = stages.update(lo, acc);
        assert(fp_sub_s(0, acc) == 0);
        let rest = cascade_run_s(upd, 0, k, lo + 1, (n - 1) as nat);
        lemma_cascade_zero(upd, k, lo + 1, (n - 1) as nat);
        assert(cascade_run_s(stages, 0, k, lo, n) == rest);
        assert forall|j: int|
            0 <= j < stages.len() implies cascade_run_s(stages, 0, k, lo, n).0[j] == if lo <= j
            < lo + n {
            0i64
        } else {
            stages[j]
        } by {
            assert(rest.0[j] == if lo + 1 <= j < lo + n {
                0i64
            } else {
                upd[j]
            });
        }
    }
}

/// The silence bias: the accumulator is nudged toward zero by the silence detector's
/// clamp, first down when positive, and back up when the result went
/// negative.
pub open spec fn clamp_bias_s(v: i64, clamp: i64) -> i64 {
    let t = if v > 0 {
        fp_sub_s(v, clamp)
    } else {
        v
    };
    if t < 0 {
        fp_add_s(t, clamp)
    } else {
        t
    }
}

fn clamp_bias(v: i64, clamp: i64) -> (r: i64)
    ensures
        r == clamp_bias_s(v, clamp),
{
    let t = if v > 0 {
        fp_sub(v, clamp)
    } else {
        v
    };
    if t < 0 {
        fp_add(t, clamp)
    } else {
        t
    }
}

/// One phase-accumulator update: the selected accumulator takes the scaled
/// sub bump, sheds a cubic self-term, is recombined as a weighted sum of all
/// three accumulators, and receives the silence bias. Returns the new three
/// accumulators and the selected one's value.
pub open spec fn bump_update_s(
    a: i64,
    b: i64,
    c: i64,
    counter: u8,
    sub_bump: i64,
    sub_gain: i64,
    shf: i64,
    clamp: i64,
) -> (i64, i64, i64, i64) {
    if counter == 1 {
        let a1 = fp_add_s(a, fp_mul_s(sub_bump, sub_gain));
        let a2 = fp_sub_s(a1, fp_mul_s(fp_mul_s(fp_mul_s(a1, a1), a1), shf));
        let a3 = fp_add_s(
            fp_add_s(fp_mul_s(INV_FAKE_RANDOM, a2), fp_mul_s(FAKE_RANDOM, b)),
            fp_mul_s(FAKE_RANDOM, c),
        );
        let a4 = clamp_bias_s(a3, clamp);
        (a4, b, c, a4)
    } else if counter == 2 {
        let b1 = fp_add_s(b, fp_mul_s(sub_bump, sub_gain));
        let b2 = fp_sub_s(b1, fp_mul_s(fp_mul_s(fp_mul_s(b1, b1), b1), shf));
        let b3 = fp_add_s(
            fp_add_s(fp_mul_s(FAKE_RANDOM, a), fp_mul_s(INV_FAKE_RANDOM, b2)),
            fp_mul_s(FAKE_RANDOM, c),
        );
        let b4 = clamp_bias_s(b3, clamp);
        (a, b4, c, b4)
    } else {
        let c1 = fp_add_s(c, fp_mul_s(sub_bump, sub_gain));
        let c2 = fp_sub_s(c1, fp_mul_s(fp_mul_s(fp_mul_s(c1, c1), c1), shf));
        let c3 = fp_add_s(
            fp_add_s(fp_mul_s(FAKE_RANDOM, a), fp_mul_s(FAKE_RANDOM, b)),
            fp_mul_s(INV_FAKE_RANDOM, c2),
        );
        let c4 = clamp_bias_s(c3, clamp);
        (a, b, c4, c4)
    }
}

fn bump_update(
    a: i64,
    b: i64,
    c: i64,
    counter: u8,
    sub_bump: i64,
    sub_gain: i64,
    shf: i64,
    clamp: i64,
) -> (r: (i64, i64, i64, i64))
    ensures
        r == bump_update_s(a, b, c, counter, sub_bump, sub_gain, shf, clamp),
{
    if counter == 1 {
        let a1 = fp_add(a, fp_mul(sub_bump, sub_gain));
        let a2 = fp_sub(a1, fp_mul(fp_mul(fp_mul(a1, a1), a1), shf));
        let a3 = fp_add(
            fp_add(fp_mul(INV_FAKE_RANDOM, a2), fp_mul(FAKE_RANDOM, b)),
            fp_mul(FAKE_RANDOM, c),
        );
        let a4 = clamp_bias(a3, clamp);
        (a4, b, c, a4)
    } else if counter == 2 {
        let b1 = fp_add(b, fp_mul(sub_bump, sub_gain));
        let b2 = fp_sub(b1, fp_mul(fp_mul(fp_mul(b1, b1), b1), shf));
        let b3 = fp_add(
            fp_add(fp_mul(FAKE_RANDOM, a), fp_mul(INV_FAKE_RANDOM, b2)),
            fp_mul(FAKE_RANDOM, c),
        );
        let b4 = clamp_bias(b3, clamp);
        (a, b4, c, b4)
    } else {
        let c1 = fp_add(c, fp_mul(sub_bump, sub_gain));
        let c2 = fp_sub(c1, fp_mul(fp_mul(fp_mul(c1, c1), c1), shf));
        let c3 = fp_add(
            fp_add(fp_mul(FAKE_RANDOM, a), fp_mul(FAKE_RANDOM, b)),
            fp_mul(INV_FAKE_RANDOM, c2),
        );
        let c4 = clamp_bias(c3, clamp);
        (a, b, c4, c4)
    }
}

/// The phase counter's successor: one, two, three, and back to one.
pub open spec fn next_counter_s(c: u8) -> u8 {
    if c + 1 < 1 || c + 1 > 3 {
        1
    } else {
        (c + 1) as u8
    }
}

/// One full step of the subharmonic synthesiser: the new scalar core, the
/// new cascade, and the synthesised sub-bump sample.
pub open spec fn sub_synth_s(
    core: SubCore,
    cascade: Seq<i64>,
    counter: u8,
    in_l: i64,
    in_r: i64,
    hoof_hardness: i64,
    sub_gain: i64,
    sub_drive: i64,
    overall_scale: i64,
) -> (SubCore, Seq<i64>, i64) {
    let shf = fp_div_s(fp_add_s(fp_mul_s(hoof_hardness, FP_TENTH), FP_FREQ_BASE), overall_scale);
    let sub_iir = fp_div_s(shf, FP_44_1);
    let lp0 = fp_div_s(fp_add_s(in_l, in_r), FP_4096);
    let da = one_pole_s(core.drive_a, lp0, shf);
    let db = one_pole_s(core.drive_b, da, shf);
    let lp = db;
    let gate = gate_s(core.osc_gate, lp);
    let clamp = fp_mul_s(fp_sub_s(FP_ONE, gate), FP_CLAMP_EPS);
    let cross = zero_cross_s(lp, core.was_negative, core.sub_octave);
    let run = cascade_run_s(cascade, lp, sub_iir, 0, cascade.len());
    let head0 = fp_mul_s(run.1, FP_256);
    let w2 = one_pole_s(core.head_w, head0, sub_iir);
    let head1 = fp_sub_s(head0, w2);
    let x2 = one_pole_s(core.head_x, head1, sub_iir);
    let head2 = fp_sub_s(head1, x2);
    let y2 = one_pole_s(core.bump_y, head2, sub_iir);
    let sb0 = fp_sub_s(head2, y2);
    let c2 = one_pole_s(core.drive_c, sb0, shf);
    let d2 = one_pole_s(core.drive_d, c2, shf);
    let sb1 = fp_abs_s(d2);
    let sb2 = if !cross.0 {
        fp_neg_s(sb1)
    } else {
        sb1
    };
    let bumps = bump_update_s(
        core.bump_a,
        core.bump_b,
        core.bump_c,
        counter,
        sb2,
        sub_gain,
        shf,
        clamp,
    );
    let z2 = one_pole_s(core.tail_z, bumps.3, shf);
    let e2 = one_pole_s(core.drive_e, z2, sub_iir);
    let f2 = one_pole_s(core.drive_f, e2, sub_iir);
    let sub_bump = if sub_drive > 0 {
        fp_add_s(f2, tape_transfer_s(f2, sub_drive))
    } else {
        f2
    };
    (
        SubCore {
            lp: run.1,
            sub_iir,
            osc_gate: gate,
            drive_a: da,
            drive_b: db,
            drive_c: c2,
            drive_d: d2,
            drive_e: e2,
            drive_f: f2,
            head_w: w2,
            head_x: x2,
            bump_y: y2,
            tail_z: z2,
            bump_a: bumps.0,
            bump_b: bumps.1,
            bump_c: bumps.2,
            sub_octave: cross.0,
            was_negative: cross.1,
        },
        run.0,
        sub_bump,
    )
}

/// A quiet synthesiser core: every accumulator at zero.
pub open spec fn quiet_core_s(core: SubCore) -> bool {
    &&& core.lp == 0
    &&& core.osc_gate == 0
    &&& core.drive_a == 0
    &&& core.drive_b == 0
    &&& core.drive_c == 0
    &&& core.drive_d == 0
    &&& core.drive_e == 0
    &&& core.drive_f == 0
    &&& core.head_w == 0
    &&& core.head_x == 0
    &&& core.bump_y == 0
    &&& core.tail_z == 0
    &&& core.bump_a == 0
    &&& core.bump_b == 0
    &&& core.bump_c == 0
}

/// A quiet synthesiser fed silence synthesises silence and stays quiet,
/// whatever the control values: the clamp bias pulls at zero without
/// moving it.
pub proof fn lemma_sub_synth_silent(
    core: SubCore,
    cascade: Seq<i64>,
    counter: u8,
    hoof_hardness: i64,
    sub_gain: i64,
    sub_drive: i64,
    overall_scale: i64,
)
    requires
        cascade.len() == CASCADE_STAGES,
        quiet_core_s(core),
        forall|j: int| 0 <= j < cascade.len() ==> cascade[j] == 0,
    ensures
        sub_synth_s(core, cascade, counter, 0, 0, hoof_hardness, sub_gain, sub_drive, overall_scale).2
            == 0,
        quiet_core_s(
            sub_synth_s(
                core,
                cascade,
                counter,
                0,
                0,
                hoof_hardness,
                sub_gain,
                sub_drive,
                overall_scale,
            ).0,
        ),
        sub_synth_s(core, cascade, counter, 0, 0, hoof_hardness, sub_gain, sub_drive, overall_scale).1.len()
            == CASCADE_STAGES,
        forall|j: int|
            0 <= j < CASCADE_STAGES ==> sub_synth_s(
                core,
                cascade,
                counter,
                0,
                0,
                hoof_hardness,
                sub_gain,
                sub_drive,
                overall_scale,
            ).1[j] == 0,
{
    let shf = fp_div_s(fp_add_s(fp_mul_s(hoof_hardness, FP_TENTH), FP_FREQ_BASE), overall_scale);
    let sub_iir = fp_div_s(shf, FP_44_1);
    crate::fixed::lemma_fp_div_zero(FP_4096);
    assert(fp_div_s(fp_add_s(0, 0), FP_4096) == 0);
    lemma_one_pole_zero(shf);
    lemma_one_pole_zero(sub_iir);
    crate::fixed::lemma_fp_mul_zero(FP_TEN);
    assert(gate_s(0, 0) == 0);
    let clamp = fp_mul_s(fp_sub_s(FP_ONE, 0), FP_CLAMP_EPS);
    lemma_cascade_zero(cascade, sub_iir, 0, cascade.len());
    crate::fixed::lemma_fp_mul_zero(FP_256);
    crate::fixed::lemma_fp_mul_zero(sub_gain);
    crate::fixed::lemma_fp_mul_zero(shf);
    crate::fixed::lemma_fp_mul_zero(0);
    crate::fixed::lemma_fp_mul_zero(INV_FAKE_RANDOM);
    crate::fixed::lemma_fp_mul_zero(FAKE_RANDOM);
    assert(clamp_bias_s(0, clamp) == 0);
    assert(bump_update_s(0, 0, 0, counter, 0, sub_gain, shf, clamp) == (0i64, 0i64, 0i64, 0i64));
    crate::saturation::lemma_tape_transfer_zero(sub_drive);
}

proof fn lemma_one_pole_zero(k: i64)
    ensures
        one_pole_s(0, 0, k) == 0,
{
    crate::fixed::lemma_fp_mul_zero(fp_sub_s(FP_ONE, k));
    crate::fixed::lemma_fp_mul_zero(k);
}

/// The fifth power halved, the octave seed of the primary stack.
pub open spec fn octave_fifth_s(x: i64) -> i64 {
    fp_mul_s(fp_mul_s(fp_mul_s(fp_mul_s(fp_mul_s(x, x), x), x), x), FP_HALF)
}

fn octave_fifth(x: i64) -> (r: i64)
    ensures
        r == octave_fifth_s(x),
{
    fp_mul(fp_mul(fp_mul(fp_mul(fp_mul(x, x), x), x), x), FP_HALF)
}

/// The primary stack's drive factors, on the coarse gain scale.
pub const DRIVE_H2: i64 = 26_470_589;

pub const DRIVE_H3: i64 = 8_941_176;

pub const DRIVE_H4: i64 = 176_471;

pub const DRIVE_H9: i64 = 171_764_710;

pub const DRIVE_H11: i64 = 4_000_000_000;

pub const DRIVE_H12: i64 = 11_764_706_000_000;

pub const DRIVE_H13: i64 = 5_294_118_000_000_000;

pub const DRIVE_H14: i64 = 17_647_059_000_000_000;

/// The harmonic-sum weight of the primary stack.
pub const HARM_SCALE: i64 = 1_497_005_990_000_000;

/// The primary stack's makeup attenuation.
pub const GAIN_ABASS3: i64 = 87_096_358_996;

/// The new-algorithm strengths and gain.
pub const ABASS2_H1: i64 = 31_422_043_000_000;

pub const ABASS2_H2: i64 = 189_295_680_000_000;

pub const ABASS2_H3: i64 = 25_000_000_000_000;

pub const ABASS2_H4: i64 = 26_197_401_000_000;

pub const ABASS2_CURVE: i64 = 7_011_890_400;

pub const GAIN_ABASS2: i64 = 758_577_575_029;

/// The eight-harmonic stack's makeup gain.
pub const GAIN_BBASS: i64 = 2_722_701_308_078;

/// The tangent-transfer algorithm's makeup gain.
pub const GAIN_TANH: i64 = 2_511_886_431_510;

/// The custom-slider algorithm's makeup attenuation.
pub const GAIN_CUSTOM: i64 = 616_595_001_861;

/// The hardness stage's leaf threshold.
pub const HARDNESS_THRESHOLD: i64 = 31_622_776_602;

/// The hardness-to-blend slope of the primary stack.
pub const SCALER_K: i64 = 1_612_900_000;

/// One hundred.
pub const FP_100: i64 = 100_000_000_000_000;

/// The primary stack: thirteen stacker passes over the shared buffer, summed
/// under the harmonics weight, plus the sub term, attenuated.
pub open spec fn abass3_s(
    buf: Seq<i64>,
    in_l: i64,
    in_r: i64,
    sub_term: i64,
    harmonics: i64,
    overall_scale: i64,
) -> (Seq<i64>, i64, i64) {
    let s2 = sweeten_s(buf, in_l, in_r, overall_scale, DRIVE_H2, 2);
    let s3 = sweeten_s(s2.0, in_l, in_r, overall_scale, DRIVE_H3, 3);
    let s4 = sweeten_s(s3.0, in_l, in_r, overall_scale, DRIVE_H4, 4);
    let s5 = sweeten_s(s4.0, in_l, in_r, overall_scale, 0, 5);
    let s6 = sweeten_s(s5.0, in_l, in_r, overall_scale, 0, 6);
    let s7 = sweeten_s(s6.0, in_l, in_r, overall_scale, 0, 7);
    let s8 = sweeten_s(s7.0, in_l, in_r, overall_scale, 0, 8);
    let s9 = sweeten_s(s8.0, in_l, in_r, overall_scale, DRIVE_H9, 9);
    let oct_l = octave_fifth_s(in_l);
    let oct_r = octave_fifth_s(in_r);
    let s10 = sweeten_s(s9.0, oct_l, oct_r, overall_scale, 0, 2);
    let s11 = sweeten_s(s10.0, oct_l, oct_r, overall_scale, DRIVE_H11, 3);
    let s12 = sweeten_s(s11.0, oct_l, oct_r, overall_scale, DRIVE_H12, 4);
    let s13 = sweeten_s(s12.0, oct_l, oct_r, overall_scale, DRIVE_H13, 5);
    let s14 = sweeten_s(s13.0, oct_l, oct_r, overall_scale, DRIVE_H14, 6);
    let sum_l = fp_add_s(
        fp_add_s(
            fp_add_s(
                fp_add_s(
                    fp_add_s(
                        fp_add_s(
                            fp_add_s(
                                fp_add_s(
                                    fp_add_s(
                                        fp_add_s(
                                            fp_add_s(fp_add_s(s2.1, s3.1), s4.1),
                                            s5.1,
                                        ),
                                        s6.1,
                                    ),
                                    s7.1,
                                ),
                                s8.1,
                            ),
                            s9.1,
                        ),
                        s10.1,
                    ),
                    s11.1,
                ),
                s12.1,
            ),
            s13.1,
        ),
        s14.1,
    );
    let sum_r = fp_add_s(
        fp_add_s(
            fp_add_s(
                fp_add_s(
                    fp_add_s(
                        fp_add_s(
                            fp_add_s(
                                fp_add_s(
                                    fp_add_s(
                                        fp_add_s(
                                            fp_add_s(fp_add_s(s2.2, s3.2), s4.2),
                                            s5.2,
                                        ),
                                        s6.2,
                                    ),
                                    s7.2,
                                ),
                                s8.2,
                            ),
                            s9.2,
                        ),
                        s10.2,
                    ),
                    s11.2,
                ),
                s12.2,
            ),
            s13.2,
        ),
        s14.2,
    );
    let factor = fp_mul_s(harmonics, HARM_SCALE);
    let p_l = fp_mul_s(fp_add_s(in_l, fp_add_s(fp_mul_s(sum_l, factor), sub_term)), GAIN_ABASS3);
    let p_r = fp_mul_s(fp_add_s(in_r, fp_add_s(fp_mul_s(sum_r, factor), sub_term)), GAIN_ABASS3);
    (s14.0, p_l, p_r)
}

fn abass3(
    buffer: &mut Vec<i64>,
    in_l: i64,
    in_r: i64,
    sub_term: i64,
    harmonics: i64,
    overall_scale: i64,
) -> (out: (i64, i64))
    requires
        old(buffer)@.len() == BUFFER_SLOTS,
    ensures
        final(buffer)@.len() == BUFFER_SLOTS,
        (final(buffer)@, out.0, out.1) == abass3_s(
            old(buffer)@,
            in_l,
            in_r,
            sub_term,
            harmonics,
            overall_scale,
        ),
{
    let (h2_l, h2_r) = sweeten::process(in_l, in_r, overall_scale, DRIVE_H2, 2, buffer);
    let (h3_l, h3_r) = sweeten::process(in_l, in_r, overall_scale, DRIVE_H3, 3, buffer);
    let (h4_l, h4_r) = sweeten::process(in_l, in_r, overall_scale, DRIVE_H4, 4, buffer);
    let (h5_l, h5_r) = sweeten::process(in_l, in_r, overall_scale, 0, 5, buffer);
    let (h6_l, h6_r) = sweeten::process(in_l, in_r, overall_scale, 0, 6, buffer);
    let (h7_l, h7_r) = sweeten::process(in_l, in_r, overall_scale, 0, 7, buffer);
    let (h8_l, h8_r) = sweeten::process(in_l, in_r, overall_scale, 0, 8, buffer);
    let (h9_l, h9_r) = sweeten::process(in_l, in_r, overall_scale, DRIVE_H9, 9, buffer);
    let oct_l = octave_fifth(in_l);
    let oct_r = octave_fifth(in_r);
    let (h10_l, h10_r) = sweeten::process(oct_l, oct_r, overall_scale, 0, 2, buffer);
    let (h11_l, h11_r) = sweeten::process(oct_l, oct_r, overall_scale, DRIVE_H11, 3, buffer);
    let (h12_l, h12_r) = sweeten::process(oct_l, oct_r, overall_scale, DRIVE_H12, 4, buffer);
    let (h13_l, h13_r) = sweeten::process(oct_l, oct_r, overall_scale, DRIVE_H13, 5, buffer);
    let (h14_l, h14_r) = sweeten::process(oct_l, oct_r, overall_scale, DRIVE_H14, 6, buffer);
    let sum_l = fp_add(
        fp_add(
            fp_add(
                fp_add(
                    fp_add(
                        fp_add(
                            fp_add(
                                fp_add(
                                    fp_add(
                                        fp_add(fp_add(fp_add(h2_l, h3_l), h4_l), h5_l),
                                        h6_l,
                                    ),
                                    h7_l,
                                ),
                                h8_l,
                            ),
                            h9_l,
                        ),
                        h10_l,
                    ),
                    h11_l,
                ),
                h12_l,
            ),
            h13_l,
        ),
        h14_l,
    );
    let sum_r = fp_add(
        fp_add(
            fp_add(
                fp_add(
                    fp_add(
                        fp_add(
                            fp_add(
                                fp_add(
                                    fp_add(
                                        fp_add(fp_add(fp_add(h2_r, h3_r), h4_r), h5_r),
                                        h6_r,
                                    ),
                                    h7_r,
                                ),
                                h8_r,
                            ),
                            h9_r,
                        ),
                        h10_r,
                    ),
                    h11_r,
                ),
                h12_r,
            ),
            h13_r,
        ),
        h14_r,
    );
    let factor = fp_mul(harmonics, HARM_SCALE);
    let p_l = fp_mul(fp_add(in_l, fp_add(fp_mul(sum_l, factor), sub_term)), GAIN_ABASS3);
    let p_r = fp_mul(fp_add(in_r, fp_add(fp_mul(sum_r, factor), sub_term)), GAIN_ABASS3);
    (p_l, p_r)
}

/// The primary stack fed silence over a zeroed buffer produces silence and
/// leaves the buffer zeroed.
pub proof fn lemma_abass3_silent(buf: Seq<i64>, harmonics: i64, overall_scale: i64)
    requires
        buf.len() == BUFFER_SLOTS,
        forall|k: int| 0 <= k < BUFFER_SLOTS ==> buf[k] == 0,
    ensures
        abass3_s(buf, 0, 0, 0, harmonics, overall_scale).1 == 0,
        abass3_s(buf, 0, 0, 0, harmonics, overall_scale).2 == 0,
        abass3_s(buf, 0, 0, 0, harmonics, overall_scale).0.len() == BUFFER_SLOTS,
        forall|k: int|
            0 <= k < BUFFER_SLOTS ==> abass3_s(buf, 0, 0, 0, harmonics, overall_scale).0[k] == 0,
{
    let os = overall_scale;
    crate::fixed::lemma_fp_mul_zero(0);
    crate::fixed::lemma_fp_mul_zero(FP_HALF);
    assert(octave_fifth_s(0) == 0);
    crate::sweeten::lemma_sweeten_silent(buf, os, DRIVE_H2, 2);
    let s2 = sweeten_s(buf, 0, 0, os, DRIVE_H2, 2);
    crate::sweeten::lemma_sweeten_silent(s2.0, os, DRIVE_H3, 3);
    let s3 = sweeten_s(s2.0, 0, 0, os, DRIVE_H3, 3);
    crate::sweeten::lemma_sweeten_silent(s3.0, os, DRIVE_H4, 4);
    let s4 = sweeten_s(s3.0, 0, 0, os, DRIVE_H4, 4);
    crate::sweeten::lemma_sweeten_silent(s4.0, os, 0, 5);
    let s5 = sweeten_s(s4.0, 0, 0, os, 0, 5);
    crate::sweeten::lemma_sweeten_silent(s5.0, os, 0, 6);
    let s6 = sweeten_s(s5.0, 0, 0, os, 0, 6);
    crate::sweeten::lemma_sweeten_silent(s6.0, os, 0, 7);
    let s7 = sweeten_s(s6.0, 0, 0, os, 0, 7);
    crate::sweeten::lemma_sweeten_silent(s7.0, os, 0, 8);
    let s8 = sweeten_s(s7.0, 0, 0, os, 0, 8);
    crate::sweeten::lemma_sweeten_silent(s8.0, os, DRIVE_H9, 9);
    let s9 = sweeten_s(s8.0, 0, 0, os, DRIVE_H9, 9);
    crate::sweeten::lemma_sweeten_silent(s9.0, os, 0, 2);
    let s10 = sweeten_s(s9.0, 0, 0, os, 0, 2);
    crate::sweeten::lemma_sweeten_silent(s10.0, os, DRIVE_H11, 3);
    let s11 = sweeten_s(s10.0, 0, 0, os, DRIVE_H11, 3);
    crate::sweeten::lemma_sweeten_silent(s11.0, os, DRIVE_H12, 4);
    let s12 = sweeten_s(s11.0, 0, 0, os, DRIVE_H12, 4);
    crate::sweeten::lemma_sweeten_silent(s12.0, os, DRIVE_H13, 5);
    let s13 = sweeten_s(s12.0, 0, 0, os, DRIVE_H13, 5);
    crate::sweeten::lemma_sweeten_silent(s13.0, os, DRIVE_H14, 6);
    let factor = fp_mul_s(harmonics, HARM_SCALE);
    crate::fixed::lemma_fp_mul_zero(factor);
    crate::fixed::lemma_fp_mul_zero(GAIN_ABASS3);
}

/// The new-algorithm channel: four configurable components plus the sub
/// term, a convex correction, and makeup attenuation.
pub open spec fn abass2_channel_s(x: i64, sub_term: i64, harmonics: i64) -> i64 {
    let p = fp_add_s(
        custom_sincos_saturation_s(
            x,
            fp_mul_s(harmonics, ABASS2_H1),
            fp_mul_s(harmonics, ABASS2_H2),
            fp_mul_s(harmonics, ABASS2_H3),
            fp_mul_s(harmonics, ABASS2_H4),
        ),
        sub_term,
    );
    let convex = fp_sub_s(fp_mul_s(p, FP_TWO), fp_mul_s(p, p));
    fp_mul_s(GAIN_ABASS2, fp_add_s(p, fp_mul_s(convex, ABASS2_CURVE)))
}

fn abass2_channel(x: i64, sub_term: i64, harmonics: i64) -> (r: i64)
    ensures
        r == abass2_channel_s(x, sub_term, harmonics),
{
    let p = fp_add(
        custom_sincos_saturation(
            x,
            fp_mul(harmonics, ABASS2_H1),
            fp_mul(harmonics, ABASS2_H2),
            fp_mul(harmonics, ABASS2_H3),
            fp_mul(harmonics, ABASS2_H4),
        ),
        sub_term,
    );
    let convex = fp_sub(fp_mul(p, FP_TWO), fp_mul(p, p));
    fp_mul(GAIN_ABASS2, fp_add(p, fp_mul(convex, ABASS2_CURVE)))
}

/// One harmonic-algorithm channel other than the primary stack.
pub open spec fn algorithm_channel_s(
    alg: AlgorithmType,
    x: i64,
    sub_term: i64,
    harmonics: i64,
    custom1: i64,
    custom2: i64,
    custom3: i64,
    custom4: i64,
) -> i64 {
    match alg {
        AlgorithmType::ABass2 => abass2_channel_s(x, sub_term, harmonics),
        AlgorithmType::BBass => fp_mul_s(
            GAIN_BBASS,
            fp_add_s(b_bass_saturation_s(x, harmonics), sub_term),
        ),
        AlgorithmType::CBass => if harmonics > 0 {
            fp_add_s(c_bass_saturation_s(x, harmonics), sub_term)
        } else {
            sub_term
        },
        AlgorithmType::TanH => fp_mul_s(
            GAIN_TANH,
            fp_add_s(tape_transfer_s(x, harmonics), sub_term),
        ),
        AlgorithmType::CustomSliders => fp_mul_s(
            GAIN_CUSTOM,
            fp_add_s(
                custom_sincos_saturation_s(
                    x,
                    fp_mul_s(harmonics, custom1),
                    fp_mul_s(harmonics, custom2),
                    fp_mul_s(harmonics, custom3),
                    fp_mul_s(harmonics, custom4),
                ),
                sub_term,
            ),
        ),
        AlgorithmType::ABass3 => x,
    }
}

fn algorithm_channel(
    alg: AlgorithmType,
    x: i64,
    sub_term: i64,
    harmonics: i64,
    custom1: i64,
    custom2: i64,
    custom3: i64,
    custom4: i64,
) -> (r: i64)
    ensures
        r == algorithm_channel_s(alg, x, sub_term, harmonics, custom1, custom2, custom3, custom4),
{
    match alg {
        AlgorithmType::ABass2 => abass2_channel(x, sub_term, harmonics),
        AlgorithmType::BBass => fp_mul(
            GAIN_BBASS,
            fp_add(b_bass_saturation(x, harmonics), sub_term),
        ),
        AlgorithmType::CBass => if harmonics > 0 {
            fp_add(c_bass_saturation(x, harmonics), sub_term)
        } else {
            sub_term
        },
        AlgorithmType::TanH => fp_mul(GAIN_TANH, fp_add(tape_transfer(x, harmonics), sub_term)),
        AlgorithmType::CustomSliders => fp_mul(
            GAIN_CUSTOM,
            fp_add(
                custom_sincos_saturation(
                    x,
                    fp_mul(harmonics, custom1),
                    fp_mul(harmonics, custom2),
                    fp_mul(harmonics, custom3),
                    fp_mul(harmonics, custom4),
                ),
                sub_term,
            ),
        ),
        AlgorithmType::ABass3 => x,
    }
}

/// The hardness stage: the primary stack blends toward a fixed leaf
/// coloration of the raw input, every other algorithm passes through the
/// hardness shaper.
pub open spec fn hardness_s(alg: AlgorithmType, input: i64, processed: i64, hoof_hardness: i64) -> i64 {
    if alg == AlgorithmType::ABass3 {
        let leaf_wet = leaf_saturation_s(input, HARDNESS_THRESHOLD, FP_HALF);
        let scaler = fp_mul_s(fp_mul_s(SCALER_K, hoof_hardness), FP_100);
        fp_add_s(fp_mul_s(scaler, leaf_wet), fp_mul_s(fp_sub_s(FP_ONE, scaler), processed))
    } else {
        chebyshev_hoof_s(processed, hoof_hardness)
    }
}

fn hardness_stage(alg: AlgorithmType, input: i64, processed: i64, hoof_hardness: i64) -> (r: i64)
    ensures
        r == hardness_s(alg, input, processed, hoof_hardness),
{
    if alg == AlgorithmType::ABass3 {
        let leaf_wet = leaf_saturation(input, HARDNESS_THRESHOLD, FP_HALF);
        let scaler = fp_mul(fp_mul(SCALER_K, hoof_hardness), FP_100);
        fp_add(fp_mul(scaler, leaf_wet), fp_mul(fp_sub(FP_ONE, scaler), processed))
    } else {
        chebyshev_hoof(processed, hoof_hardness)
    }
}

/// The whole harmonic stage: the selected algorithm's samples, with the
/// hardness stage applied, and the stacker buffer as the primary stack
/// leaves it. The new algorithm derives both channels from the left input;
/// every other algorithm feeds each channel its own input.
pub open spec fn harmonics_s(
    buf: Seq<i64>,
    in_l: i64,
    in_r: i64,
    sub_bump: i64,
    params: EngineParams,
    overall_scale: i64,
) -> (Seq<i64>, i64, i64) {
    let sub_term = fp_mul_s(sub_bump, params.sub_gain);
    let staged = if params.h_algorithm == AlgorithmType::ABass3 {
        abass3_s(buf, in_l, in_r, sub_term, params.harmonics, overall_scale)
    } else {
        (
            buf,
            algorithm_channel_s(
                params.h_algorithm,
                in_l,
                sub_term,
                params.harmonics,
                params.custom_harmonics1,
                params.custom_harmonics2,
                params.custom_harmonics3,
                params.custom_harmonics4,
            ),
            algorithm_channel_s(
                params.h_algorithm,
                if params.h_algorithm == AlgorithmType::ABass2 {
                    in_l
                } else {
                    in_r
                },
                sub_term,
                params.harmonics,
                params.custom_harmonics1,
                params.custom_harmonics2,
                params.custom_harmonics3,
                params.custom_harmonics4,
            ),
        )
    };
    (
        staged.0,
        hardness_s(params.h_algorithm, in_l, staged.1, params.hoof_hardness),
        hardness_s(params.h_algorithm, in_r, staged.2, params.hoof_hardness),
    )
}

/// The whole harmonic stage under the primary stack fixes silence.
pub proof fn lemma_harmonics_silent(buf: Seq<i64>, params: EngineParams, overall_scale: i64)
    requires
        buf.len() == BUFFER_SLOTS,
        forall|k: int| 0 <= k < BUFFER_SLOTS ==> buf[k] == 0,
        params.h_algorithm == AlgorithmType::ABass3,
    ensures
        harmonics_s(buf, 0, 0, 0, params, overall_scale).1 == 0,
        harmonics_s(buf, 0, 0, 0, params, overall_scale).2 == 0,
        harmonics_s(buf, 0, 0, 0, params, overall_scale).0.len() == BUFFER_SLOTS,
        forall|k: int|
            0 <= k < BUFFER_SLOTS ==> harmonics_s(buf, 0, 0, 0, params, overall_scale).0[k] == 0,
{
    crate::fixed::lemma_fp_mul_zero(params.sub_gain);
    lemma_abass3_silent(buf, params.harmonics, overall_scale);
    crate::saturation::lemma_leaf_silent(HARDNESS_THRESHOLD, FP_HALF);
    let scaler = fp_mul_s(fp_mul_s(SCALER_K, params.hoof_hardness), FP_100);
    crate::fixed::lemma_fp_mul_zero(scaler);
    crate::fixed::lemma_fp_mul_zero(fp_sub_s(FP_ONE, scaler));
    assert(hardness_s(AlgorithmType::ABass3, 0, 0, params.hoof_hardness) == 0);
}

/// Silence in, silence out: a quiet engine fed a zero sample pair under the
/// primary stack gives a zero output pair, and every accumulator, buffer
/// slot and blocker memory stays zero — the silence detector and its clamp
/// bias synthesise no noise of their own.
pub proof fn lemma_silence_is_preserved(s: Subhoofer, params: EngineParams)
    requires
        s.wf(),
        s.is_quiet(),
        params.h_algorithm == AlgorithmType::ABass3,
    ensures
        ({
            let gl = fp_mul_s(0, params.gain);
            let os = fp_div_s(params.sample_rate, FP_44100);
            let synth = sub_synth_s(
                s.core,
                s.iir_cascade@,
                s.bass_flip_counter,
                gl,
                gl,
                params.hoof_hardness,
                params.sub_gain,
                params.sub_drive,
                os,
            );
            let harm = harmonics_s(s.buffer@, gl, gl, synth.2, params, os);
            let fin = finish_s(s.dc_l, harm.1, gl, params.dry_wet, params.output_gain);
            &&& gl == 0
            &&& synth.2 == 0
            &&& quiet_core_s(synth.0)
            &&& (forall|j: int| 0 <= j < CASCADE_STAGES ==> synth.1[j] == 0)
            &&& harm.1 == 0
            &&& harm.2 == 0
            &&& (forall|k: int| 0 <= k < BUFFER_SLOTS ==> harm.0[k] == 0)
            &&& fin.0.prev_in == 0
            &&& fin.0.prev_out == 0
            &&& fin.1 == 0
        }),
{
    let gl = fp_mul_s(0, params.gain);
    crate::fixed::lemma_fp_mul_zero(params.gain);
    let os = fp_div_s(params.sample_rate, FP_44100);
    lemma_sub_synth_silent(
        s.core,
        s.iir_cascade@,
        s.bass_flip_counter,
        params.hoof_hardness,
        params.sub_gain,
        params.sub_drive,
        os,
    );
    lemma_harmonics_silent(s.buffer@, params, os);
    crate::fixed::lemma_fp_mul_zero(FP_ONE);
    crate::fixed::lemma_fp_mul_zero(crate::mix::HP_B1);
    crate::fixed::lemma_fp_mul_zero(crate::mix::HP_A1);
    crate::fixed::lemma_fp_mul_zero(params.dry_wet);
    crate::fixed::lemma_fp_mul_zero(params.output_gain);
}

/// The output stage of one channel: DC blocking, the dry/wet blend against
/// the gained input, and the output gain.
pub open spec fn finish_s(dc: DcBlocker, processed: i64, dry: i64, wet_gain: i64, output_gain: i64) -> (
    DcBlocker,
    i64,
) {
    let step = dc_block_s(dc, processed);
    (step.0, fp_mul_s(mix_dry_wet_s(dry, step.1, wet_gain), output_gain))
}

impl Subhoofer {
    /// The fixed shape of the engine's state.
    pub open spec fn wf(self) -> bool {
        &&& self.iir_cascade@.len() == CASCADE_STAGES
        &&& self.buffer@.len() == BUFFER_SLOTS
        &&& 1 <= self.bass_flip_counter <= 3
    }

    /// A quiet engine: every filter accumulator, buffer slot and blocker
    /// memory is zero.
    pub open spec fn is_quiet(self) -> bool {
        &&& self.core.lp == 0
        &&& self.core.osc_gate == 0
        &&& self.core.drive_a == 0
        &&& self.core.drive_b == 0
        &&& self.core.drive_c == 0
        &&& self.core.drive_d == 0
        &&& self.core.drive_e == 0
        &&& self.core.drive_f == 0
        &&& self.core.head_w == 0
        &&& self.core.head_x == 0
        &&& self.core.bump_y == 0
        &&& self.core.tail_z == 0
        &&& self.core.bump_a == 0
        &&& self.core.bump_b == 0
        &&& self.core.bump_c == 0
        &&& (forall|k: int| 0 <= k < self.iir_cascade@.len() ==> self.iir_cascade@[k] == 0)
        &&& (forall|k: int| 0 <= k < self.buffer@.len() ==> self.buffer@[k] == 0)
        &&& self.dc_l.prev_in == 0
        &&& self.dc_l.prev_out == 0
        &&& self.dc_r.prev_in == 0
        &&& self.dc_r.prev_out == 0
    }

    /// A freshly created engine: zeroed state, the octave toggle down, the
    /// detector unarmed, the phase counter at one.
    pub fn new() -> (s: Subhoofer)
        ensures
            s.wf(),
            s.is_quiet(),
            s.core.sub_octave == false,
            s.core.was_negative == false,
            s.core.sub_iir == 0,
            s.bass_flip_counter == 1,
    {
        Subhoofer {
            core: SubCore {
                lp: 0,
                sub_iir: 0,
                osc_gate: 0,
                drive_a: 0,
                drive_b: 0,
                drive_c: 0,
                drive_d: 0,
                drive_e: 0,
                drive_f: 0,
                head_w: 0,
                head_x: 0,
                bump_y: 0,
                tail_z: 0,
                bump_a: 0,
                bump_b: 0,
                bump_c: 0,
                sub_octave: false,
                was_negative: false,
            },
            iir_cascade: zeroed_vec(CASCADE_STAGES),
            bass_flip_counter: 1,
            buffer: zeroed_vec(BUFFER_SLOTS),
            dc_l: DcBlocker::new(),
            dc_r: DcBlocker::new(),
        }
    }

    fn sub_synth(
        &mut self,
        in_l: i64,
        in_r: i64,
        hoof_hardness: i64,
        sub_gain: i64,
        sub_drive: i64,
        overall_scale: i64,
    ) -> (sub_bump: i64)
        requires
            old(self).wf(),
        ensures
            final(self).wf(),
            (final(self).core, final(self).iir_cascade@, sub_bump) == sub_synth_s(
                old(self).core,
                old(self).iir_cascade@,
                old(self).bass_flip_counter,
                in_l,
                in_r,
                hoof_hardness,
                sub_gain,
                sub_drive,
                overall_scale,
            ),
            final(self).bass_flip_counter == old(self).bass_flip_counter,
            final(self).buffer@ == old(self).buffer@,
            final(self).dc_l == old(self).dc_l,
            final(self).dc_r == old(self).dc_r,
    {
        let shf = fp_div(
            fp_add(fp_mul(hoof_hardness, FP_TENTH), FP_FREQ_BASE),
            overall_scale,
        );
        self.core.sub_iir = fp_div(shf, FP_44_1);
        let lp0 = fp_div(fp_add(in_l, in_r), FP_4096);
        self.core.drive_a = one_pole(self.core.drive_a, lp0, shf);
        self.core.drive_b = one_pole(self.core.drive_b, self.core.drive_a, shf);
        let lp = self.core.drive_b;
        self.core.osc_gate = gate_step(self.core.osc_gate, lp);
        let clamp = fp_mul(fp_sub(FP_ONE, self.core.osc_gate), FP_CLAMP_EPS);
        let cross = zero_cross(lp, self.core.was_negative, self.core.sub_octave);
        self.core.sub_octave = cross.0;
        self.core.was_negative = cross.1;
        let residual = cascade_run(&mut self.iir_cascade, lp, self.core.sub_iir);
        self.core.lp = residual;
        let head0 = fp_mul(residual, FP_256);
        self.core.head_w = one_pole(self.core.head_w, head0, self.core.sub_iir);
        let head1 = fp_sub(head0, self.core.head_w);
        self.core.head_x = one_pole(self.core.head_x, head1, self.core.sub_iir);
        let head2 = fp_sub(head1, self.core.head_x);
        self.core.bump_y = one_pole(self.core.bump_y, head2, self.core.sub_iir);
        let sb0 = fp_sub(head2, self.core.bump_y);
        self.core.drive_c = one_pole(self.core.drive_c, sb0, shf);
        self.core.drive_d = one_pole(self.core.drive_d, self.core.drive_c, shf);
        let sb1 = fp_abs(self.core.drive_d);
        let sb2 = if !self.core.sub_octave {
            fp_neg(sb1)
        } else {
            sb1
        };
        let bumps = bump_update(
            self.core.bump_a,
            self.core.bump_b,
            self.core.bump_c,
            self.bass_flip_counter,
            sb2,
            sub_gain,
            shf,
            clamp,
        );
        self.core.bump_a = bumps.0;
        self.core.bump_b = bumps.1;
        self.core.bump_c = bumps.2;
        self.core.tail_z = one_pole(self.core.tail_z, bumps.3, shf);
        self.core.drive_e = one_pole(self.core.drive_e, self.core.tail_z, self.core.sub_iir);
        self.core.drive_f = one_pole(self.core.drive_f, self.core.drive_e, self.core.sub_iir);
        let sb9 = self.core.drive_f;
        if sub_drive > 0 {
            fp_add(sb9, tape_transfer(sb9, sub_drive))
        } else {
            sb9
        }
    }

    /// Process one stereo sample: apply the input gain, synthesise the sub
    /// bump, run the selected harmonic algorithm and the hardness stage,
    /// block DC per channel, and blend dry against wet under the output
    /// gain.
    pub fn process(&mut self, in_l: i64, in_r: i64, params: &EngineParams) -> (out: (i64, i64))
        requires
            old(self).wf(),
        ensures
            final(self).wf(),
            ({
                let gl = fp_mul_s(in_l, params.gain);
                let gr = fp_mul_s(in_r, params.gain);
                let os = fp_div_s(params.sample_rate, FP_44100);
                let synth = sub_synth_s(
                    old(self).core,
                    old(self).iir_cascade@,
                    old(self).bass_flip_counter,
                    gl,
                    gr,
                    params.hoof_hardness,
                    params.sub_gain,
                    params.sub_drive,
                    os,
                );
                let harm = harmonics_s(old(self).buffer@, gl, gr, synth.2, *params, os);
                let fin_l = finish_s(old(self).dc_l, harm.1, gl, params.dry_wet, params.output_gain);
                let fin_r = finish_s(old(self).dc_r, harm.2, gr, params.dry_wet, params.output_gain);
                &&& final(self).core == synth.0
                &&& final(self).iir_cascade@ == synth.1
                &&& final(self).buffer@ == harm.0
                &&& final(self).bass_flip_counter == next_counter_s(old(self).bass_flip_counter)
                &&& final(self).dc_l == fin_l.0
                &&& final(self).dc_r == fin_r.0
                &&& out.0 == fin_l.1
                &&& out.1 == fin_r.1
            }),
    {
        let gl = fp_mul(in_l, params.gain);
        let gr = fp_mul(in_r, params.gain);
        let os = fp_div(params.sample_rate, FP_44100);
        let sub_bump = self.sub_synth(
            gl,
            gr,
            params.hoof_hardness,
            params.sub_gain,
            params.sub_drive,
            os,
        );
        let sub_term = fp_mul(sub_bump, params.sub_gain);
        let (staged_l, staged_r) = if let AlgorithmType::ABass3 = params.h_algorithm {
            abass3(&mut self.buffer, gl, gr, sub_term, params.harmonics, os)
        } else {
            let left = algorithm_channel(
                params.h_algorithm,
                gl,
                sub_term,
                params.harmonics,
                params.custom_harmonics1,
                params.custom_harmonics2,
                params.custom_harmonics3,
                params.custom_harmonics4,
            );
            let right_input = if let AlgorithmType::ABass2 = params.h_algorithm {
                gl
            } else {
                gr
            };
            let right = algorithm_channel(
                params.h_algorithm,
                right_input,
                sub_term,
                params.harmonics,
                params.custom_harmonics1,
                params.custom_harmonics2,
                params.custom_harmonics3,
                params.custom_harmonics4,
            );
            (left, right)
        };
        let hard_l = hardness_stage(params.h_algorithm, gl, staged_l, params.hoof_hardness);
        let hard_r = hardness_stage(params.h_algorithm, gr, staged_r, params.hoof_hardness);
        self.bass_flip_counter = if self.bass_flip_counter + 1 > 3 {
            1
        } else {
            self.bass_flip_counter + 1
        };
        let blocked_l = self.dc_l.step(hard_l);
        let out_l = fp_mul(
            crate::mix::mix_dry_wet(gl, blocked_l, params.dry_wet),
            params.output_gain,
        );
        let blocked_r = self.dc_r.step(hard_r);
        let out_r = fp_mul(
            crate::mix::mix_dry_wet(gr, blocked_r, params.dry_wet),
            params.output_gain,
        );
        (out_l, out_r)
    }
}

impl Default for Subhoofer {
    /// A freshly created, quiet engine.
    fn default() -> (s: Subhoofer)
        ensures
            s.wf(),
            s.is_quiet(),
            s.core.sub_octave == false,
            s.core.was_negative == false,
            s.bass_flip_counter == 1,
    {
        Subhoofer::new()
    }
}

fn zeroed_vec(n: usize) -> (v: Vec<i64>)
    ensures
        v@.len() == n,
        forall|k: int| 0 <= k < n ==> v@[k] == 0,
{
    let mut v: Vec<i64> = Vec::new();
    let mut i: usize = 0;
    while i < n
        invariant
            i <= n,
            v@.len() == i,
            forall|k: int| 0 <= k < i ==> v@[k] == 0,
        decreases n - i,
    {
        v.push(0);
        i = i + 1;
    }
    v
}

} // verus!
