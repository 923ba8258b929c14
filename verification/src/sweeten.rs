//! The harmonic stacker: a smoothing buffer that synthesises a
//! difference-tone harmonic series from an input sample pair.
//!
//! The stacker smooths the input through a short cascade of one-pole
//! averaging stages, raises the midpoint of the cascade to an integer
//! harmonic power scaled by a drive factor, smooths it again through a second
//! identical cascade, and returns the difference between the input and that
//! smoothed copy. The left channel owns the low half of a sixteen-slot
//! buffer and the right channel the high half, so the two channels never
//! alias into each other's state.

use crate::fixed::{
    dtz_s, fp_add, fp_add_s, fp_mul, fp_mul_gain, fp_mul_gain_s, fp_mul_s, fp_powi, fp_powi_s,
    fp_sub, fp_sub_s, FP_ONE,
};
use crate::saturation::FP_HALF;
use vstd::prelude::*;

verus! {

/// The number of smoothing slots the stacker owns.
pub const BUFFER_SLOTS: usize = 16;

/// The first slot of the right channel's half of the buffer.
pub const RIGHT_BASE: usize = 8;

/// The number of averaging stages for an overall scale: its whole part,
/// clamped between one and four.
pub open spec fn cycle_end_s(overall_scale: i64) -> nat {
    let c = dtz_s(overall_scale as int, FP_ONE as int);
    if c < 1 {
        1
    } else if c > 4 {
        4
    } else {
        c as nat
    }
}

/// The number of averaging stages for an overall scale.
pub fn cycle_len(overall_scale: i64) -> (n: usize)
    ensures
        n == cycle_end_s(overall_scale),
        1 <= n <= 4,
{
    let c: i64 = overall_scale / FP_ONE;
    if c < 1 {
        1
    } else if c > 4 {
        4
    } else {
        c as usize
    }
}

/// A run of `n` one-pole averaging stages over the slots starting at `lo`:
/// each stage averages the running sample with its slot and stores the
/// previous running sample back into the slot.
pub open spec fn smooth_run_s(buf: Seq<i64>, sample: i64, lo: int, n: nat) -> (Seq<i64>, i64)
    decreases n,
{
    if n == 0 {
        (buf, sample)
    } else {
        let averaged = fp_mul_s(fp_add_s(sample, buf[lo]), FP_HALF);
        smooth_run_s(buf.update(lo, sample), averaged, lo + 1, (n - 1) as nat)
    }
}

/// One channel of the stacker: smooth, raise to the harmonic power under the
/// drive, smooth again, and subtract from the input. The drive factor is on
/// the coarse gain scale.
pub open spec fn sweeten_channel_s(
    buf: Seq<i64>,
    input: i64,
    drive: i64,
    harmonic: u32,
    lo: int,
    n: nat,
) -> (Seq<i64>, i64) {
    let first = smooth_run_s(buf, input, lo, n);
    let powed = fp_mul_gain_s(fp_powi_s(first.1, harmonic as nat), drive);
    let second = smooth_run_s(first.0, powed, lo + n, n);
    (second.0, fp_sub_s(input, second.1))
}

/// The whole stacker step: the left channel runs on the low half of the
/// buffer, the right channel on the high half.
pub open spec fn sweeten_s(
    buf: Seq<i64>,
    in_l: i64,
    in_r: i64,
    overall_scale: i64,
    drive: i64,
    harmonic: u32,
) -> (Seq<i64>, i64, i64) {
    let n = cycle_end_s(overall_scale);
    let left = sweeten_channel_s(buf, in_l, drive, harmonic, 0, n);
    let right = sweeten_channel_s(left.0, in_r, drive, harmonic, RIGHT_BASE as int, n);
    (right.0, left.1, right.1)
}

/// A smoothing run touches exactly the slots it owns.
pub proof fn lemma_smooth_run_frame(buf: Seq<i64>, sample: i64, lo: int, n: nat)
    requires
        0 <= lo,
        lo + n <= buf.len(),
    ensures
        smooth_run_s(buf, sample, lo, n).0.len() == buf.len(),
        forall|k: int|
            0 <= k < buf.len() && !(lo <= k < lo + n) ==> smooth_run_s(buf, sample, lo, n).0[k]
                == buf[k],
    decreases n,
{
    if n > 0 {
        let averaged = fp_mul_s(fp_add_s(sample, buf[lo]), FP_HALF);
        let upd = buf.update(lo, sample);
        let rest = smooth_run_s(upd, averaged, lo + 1, (n - 1) as nat);
        lemma_smooth_run_frame(upd, averaged, lo + 1, (n - 1) as nat);
        assert(smooth_run_s(buf, sample, lo, n) == rest);
        assert forall|k: int|
            0 <= k < buf.len() && !(lo <= k < lo + n) implies smooth_run_s(buf, sample, lo, n).0[k]
            == buf[k] by {
            assert(rest.0[k] == upd[k]);
        }
    }
}

/// A smoothing run over zeroed slots with a zero sample leaves everything
/// zero.
pub proof fn lemma_smooth_run_zero(buf: Seq<i64>, lo: int, n: nat)
    requires
        0 <= lo,
        lo + n <= buf.len(),
        forall|k: int| lo <= k < lo + n ==> buf[k] == 0,
    ensures
        smooth_run_s(buf, 0, lo, n).0.len() == buf.len(),
        smooth_run_s(buf, 0, lo, n).1 == 0,
        forall|k: int|
            0 <= k < buf.len() && lo <= k < lo + n ==> smooth_run_s(buf, 0, lo, n).0[k] == 0,
        forall|k: int|
            0 <= k < buf.len() && !(lo <= k < lo + n) ==> smooth_run_s(buf, 0, lo, n).0[k]
                == buf[k],
    decreases n,
{
    if n > 0 {
        let averaged = fp_mul_s(fp_add_s(0, buf[lo]), FP_HALF);
        assert(averaged == 0);
        let upd = buf.update(lo, 0);
        let rest = smooth_run_s(upd, 0, lo + 1, (n - 1) as nat);
        lemma_smooth_run_zero(upd, lo + 1, (n - 1) as nat);
        assert(smooth_run_s(buf, 0, lo, n) == rest);
        assert forall|k: int|
            0 <= k < buf.len() && !(lo <= k < lo + n) implies smooth_run_s(buf, 0, lo, n).0[k]
            == buf[k] by {
            assert(rest.0[k] == upd[k]);
        }
        assert forall|k: int|
            0 <= k < buf.len() && lo <= k < lo + n implies smooth_run_s(buf, 0, lo, n).0[k]
            == 0 by {
            if k == lo {
                assert(rest.0[k] == upd[k]);
            }
        }
    }
}

/// The channels are independent: silence on the right channel, over a zeroed
/// right half of the buffer, keeps that half zero and yields a zero right
/// output, whatever the left channel is fed.
pub proof fn lemma_right_channel_silent(
    buf: Seq<i64>,
    in_l: i64,
    overall_scale: i64,
    drive: i64,
    harmonic: u32,
)
    requires
        buf.len() == BUFFER_SLOTS,
        1 <= harmonic,
        forall|k: int| RIGHT_BASE <= k < BUFFER_SLOTS ==> buf[k] == 0,
    ensures
        sweeten_s(buf, in_l, 0, overall_scale, drive, harmonic).2 == 0,
        forall|k: int|
            RIGHT_BASE <= k < BUFFER_SLOTS ==> sweeten_s(
                buf,
                in_l,
                0,
                overall_scale,
                drive,
                harmonic,
            ).0[k] == 0,
{
    let n = cycle_end_s(overall_scale);
    assert(1 <= n <= 4);
    let first = smooth_run_s(buf, in_l, 0, n);
    let powed = fp_mul_gain_s(fp_powi_s(first.1, harmonic as nat), drive);
    lemma_smooth_run_frame(buf, in_l, 0, n);
    lemma_smooth_run_frame(first.0, powed, 0 + n as int, n);
    let second = smooth_run_s(first.0, powed, 0 + n as int, n);
    let left_buf = sweeten_channel_s(buf, in_l, drive, harmonic, 0, n).0;
    assert(left_buf == second.0);
    assert forall|k: int| RIGHT_BASE <= k < BUFFER_SLOTS implies left_buf[k] == 0 by {
        assert(second.0[k] == first.0[k]);
        assert(first.0[k] == buf[k]);
    }
    let rfirst = smooth_run_s(left_buf, 0, RIGHT_BASE as int, n);
    lemma_smooth_run_zero(left_buf, RIGHT_BASE as int, n);
    assert(fp_powi_s(0, harmonic as nat) == 0) by {
        lemma_powi_zero(harmonic as nat);
    }
    let powed_r = fp_mul_gain_s(fp_powi_s(rfirst.1, harmonic as nat), drive);
    assert(powed_r == 0);
    assert forall|k: int| RIGHT_BASE as int + n <= k < RIGHT_BASE as int + n + n implies rfirst.0[k]
        == 0 by {
        assert(rfirst.0[k] == left_buf[k]);
    }
    let rsecond = smooth_run_s(rfirst.0, powed_r, RIGHT_BASE as int + n, n);
    lemma_smooth_run_zero(rfirst.0, RIGHT_BASE as int + n, n);
    assert(rsecond == smooth_run_s(rfirst.0, 0, RIGHT_BASE as int + n, n));
    assert(sweeten_s(buf, in_l, 0, overall_scale, drive, harmonic).0 == rsecond.0);
    assert forall|k: int| RIGHT_BASE <= k < BUFFER_SLOTS implies rsecond.0[k] == 0 by {
        if k < RIGHT_BASE as int + n {
            assert(rsecond.0[k] == rfirst.0[k]);
        } else if k >= RIGHT_BASE as int + n + n {
            assert(rsecond.0[k] == rfirst.0[k]);
            assert(rfirst.0[k] == left_buf[k]);
        }
    }
    assert(fp_sub_s(0, 0) == 0);
}

/// Silence in, silence out: a zeroed buffer fed zero on both channels stays
/// zero and produces zero.
pub proof fn lemma_sweeten_silent(buf: Seq<i64>, overall_scale: i64, drive: i64, harmonic: u32)
    requires
        buf.len() == BUFFER_SLOTS,
        1 <= harmonic,
        forall|k: int| 0 <= k < BUFFER_SLOTS ==> buf[k] == 0,
    ensures
        sweeten_s(buf, 0, 0, overall_scale, drive, harmonic).1 == 0,
        sweeten_s(buf, 0, 0, overall_scale, drive, harmonic).2 == 0,
        sweeten_s(buf, 0, 0, overall_scale, drive, harmonic).0.len() == BUFFER_SLOTS,
        forall|k: int|
            0 <= k < BUFFER_SLOTS ==> sweeten_s(buf, 0, 0, overall_scale, drive, harmonic).0[k]
                == 0,
{
    let n = cycle_end_s(overall_scale);
    assert(1 <= n <= 4);
    let first = smooth_run_s(buf, 0, 0, n);
    lemma_smooth_run_zero(buf, 0, n);
    lemma_powi_zero(harmonic as nat);
    assert(fp_mul_gain_s(fp_powi_s(first.1, harmonic as nat), drive) == 0);
    assert forall|k: int| 0 + n <= k < 0 + n + n implies first.0[k] == 0 by {
        assert(first.0[k] == buf[k]);
    }
    let second = smooth_run_s(first.0, 0, 0 + n as int, n);
    lemma_smooth_run_zero(first.0, 0 + n as int, n);
    assert(fp_sub_s(0, 0) == 0);
    let left_buf = sweeten_channel_s(buf, 0, drive, harmonic, 0, n).0;
    assert(left_buf == second.0);
    assert(second.0.len() == BUFFER_SLOTS);
    assert forall|k: int| 0 <= k < BUFFER_SLOTS implies left_buf[k] == 0 by {
        if !(n <= k < n + n) {
            assert(second.0[k] == first.0[k]);
            if !(0 <= k < n) {
                assert(first.0[k] == buf[k]);
            }
        }
    }
    let rfirst = smooth_run_s(left_buf, 0, RIGHT_BASE as int, n);
    lemma_smooth_run_zero(left_buf, RIGHT_BASE as int, n);
    assert(fp_mul_gain_s(fp_powi_s(rfirst.1, harmonic as nat), drive) == 0);
    assert forall|k: int| RIGHT_BASE as int + n <= k < RIGHT_BASE as int + n + n implies rfirst.0[k]
        == 0 by {
        assert(rfirst.0[k] == left_buf[k]);
    }
    let rsecond = smooth_run_s(rfirst.0, 0, RIGHT_BASE as int + n, n);
    lemma_smooth_run_zero(rfirst.0, RIGHT_BASE as int + n, n);
    assert forall|k: int|
        0 <= k < BUFFER_SLOTS implies sweeten_s(buf, 0, 0, overall_scale, drive, harmonic).0[k]
        == 0 by {
        assert(rsecond.0[k] == 0 || rsecond.0[k] == rfirst.0[k]);
        assert(rfirst.0[k] == 0 || rfirst.0[k] == left_buf[k]);
    }
}

proof fn lemma_powi_zero(n: nat)
    requires
        n >= 1,
    ensures
        fp_powi_s(0, n) == 0,
    decreases n,
{
    if n > 1 {
        lemma_powi_zero((n - 1) as nat);
    }
    assert(fp_mul_s(fp_powi_s(0, (n - 1) as nat), 0) == 0);
}

fn smooth_run(buffer: &mut Vec<i64>, sample: i64, lo: usize, n: usize) -> (out: i64)
    requires
        old(buffer)@.len() == BUFFER_SLOTS,
        lo + n <= BUFFER_SLOTS,
    ensures
        final(buffer)@.len() == old(buffer)@.len(),
        (final(buffer)@, out) == smooth_run_s(old(buffer)@, sample, lo as int, n as nat),
{
    let mut sweet = sample;
    let mut j: usize = lo;
    let hi: usize = lo + n;
    while j < hi
        invariant
            lo <= j <= hi,
            hi == lo + n,
            hi <= buffer@.len(),
            buffer@.len() == old(buffer)@.len(),
            smooth_run_s(old(buffer)@, sample, lo as int, n as nat) == smooth_run_s(
                buffer@,
                sweet,
                j as int,
                (hi - j) as nat,
            ),
        decreases hi - j,
    {
        let slot = buffer[j];
        let averaged = fp_mul(fp_add(sweet, slot), FP_HALF);
        buffer[j] = sweet;
        sweet = averaged;
        j = j + 1;
    }
    sweet
}

/// One stacker step over a sample pair. The `drive` factor is on the coarse
/// gain scale; `harmonic` is the integer power the midpoint of the cascade is
/// raised to.
pub fn process(
    in_l: i64,
    in_r: i64,
    overall_scale: i64,
    drive: i64,
    harmonic: u32,
    buffer: &mut Vec<i64>,
) -> (out: (i64, i64))
    requires
        old(buffer)@.len() == BUFFER_SLOTS,
    ensures
        final(buffer)@.len() == BUFFER_SLOTS,
        (final(buffer)@, out.0, out.1) == sweeten_s(
            old(buffer)@,
            in_l,
            in_r,
            overall_scale,
            drive,
            harmonic,
        ),
{
    let n = cycle_len(overall_scale);
    proof {
        lemma_smooth_run_frame(buffer@, in_l, 0, n as nat);
    }
    let mut sweet = smooth_run(buffer, in_l, 0, n);
    sweet = fp_mul_gain(fp_powi(sweet, harmonic), drive);
    sweet = smooth_run(buffer, sweet, n, n);
    let out_l = fp_sub(in_l, sweet);

    sweet = smooth_run(buffer, in_r, RIGHT_BASE, n);
    sweet = fp_mul_gain(fp_powi(sweet, harmonic), drive);
    sweet = smooth_run(buffer, sweet, RIGHT_BASE + n, n);
    let out_r = fp_sub(in_r, sweet);
    (out_l, out_r)
}

} // verus!
