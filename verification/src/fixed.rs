//! Saturating fixed-point arithmetic.
//!
//! A value of type `i64` stands for the real number `v / FP_ONE`, giving
//! twelve fractional decimal digits. All operations are total: products and
//! quotients are computed in 128-bit intermediates and the result is clamped
//! to the symmetric range `[-i64::MAX, i64::MAX]`, and a division by zero
//! yields zero (silence), so no operation here can panic or wrap.

use vstd::prelude::*;

verus! {

/// The fixed-point representation of 1.0.
pub const FP_ONE: i64 = 1_000_000_000_000;

/// The fixed-point representation of 1.0 on the coarse gain scale, used for
/// very large drive factors that the fine scale cannot hold.
pub const FP_GAIN_ONE: i64 = 1_000_000;

/// Mathematical absolute value.
pub open spec fn abs_i(x: int) -> int {
    if x < 0 {
        -x
    } else {
        x
    }
}

/// Clamp a mathematical integer into the symmetric `i64` range.
pub open spec fn sat64_s(x: int) -> i64 {
    if x > i64::MAX as int {
        i64::MAX
    } else if x < -(i64::MAX as int) {
        (-(i64::MAX as int)) as i64
    } else {
        x as i64
    }
}

/// Division rounding toward zero, the rounding of hardware signed division.
pub open spec fn dtz_s(x: int, d: int) -> int
    recommends
        d != 0,
{
    let q = abs_i(x) / abs_i(d);
    if (x < 0) != (d < 0) {
        -q
    } else {
        q
    }
}

/// Saturating fixed-point addition.
pub open spec fn fp_add_s(a: i64, b: i64) -> i64 {
    sat64_s(a + b)
}

/// Saturating fixed-point subtraction.
pub open spec fn fp_sub_s(a: i64, b: i64) -> i64 {
    sat64_s(a - b)
}

/// Saturating fixed-point multiplication (truncating toward zero).
pub open spec fn fp_mul_s(a: i64, b: i64) -> i64 {
    sat64_s(dtz_s(a * b, FP_ONE as int))
}

/// Saturating fixed-point multiplication by a coarse-scale gain factor.
pub open spec fn fp_mul_gain_s(a: i64, g: i64) -> i64 {
    sat64_s(dtz_s(a * g, FP_GAIN_ONE as int))
}

/// Saturating fixed-point division; a zero divisor yields silence (zero).
pub open spec fn fp_div_s(a: i64, b: i64) -> i64 {
    if b == 0 {
        0
    } else {
        sat64_s(dtz_s(a * FP_ONE, b as int))
    }
}

/// Saturating negation (the minimum value maps to the maximum).
pub open spec fn fp_neg_s(a: i64) -> i64 {
    sat64_s(-(a as int))
}

/// Saturating absolute value.
pub open spec fn fp_abs_s(a: i64) -> i64 {
    if a < 0 {
        fp_neg_s(a)
    } else {
        a
    }
}

proof fn lemma_i64_product_fits(a: int, b: int)
    by (nonlinear_arith)
    requires
        0 <= a <= 0x8000_0000_0000_0000,
        0 <= b <= 0x8000_0000_0000_0000,
    ensures
        0 <= a * b <= 0x4000_0000_0000_0000_0000_0000_0000_0000,
{
}

proof fn lemma_div_magnitude(x: int, d: int)
    requires
        0 <= x,
        1 <= d,
    ensures
        0 <= x / d <= x,
{
    vstd::arithmetic::div_mod::lemma_div_basics_4(x, d);
    vstd::arithmetic::div_mod::lemma_div_basics_5(x, d);
}

fn clamp_wide(q: i128) -> (r: i64)
    ensures
        r == sat64_s(q as int),
{
    if q > i64::MAX as i128 {
        i64::MAX
    } else if q < -(i64::MAX as i128) {
        -i64::MAX
    } else {
        q as i64
    }
}

/// The magnitude of an `i64`, widened so the minimum value needs no special
/// case.
fn abs_wide(a: i64) -> (m: u128)
    ensures
        m == abs_i(a as int),
{
    if a < 0 {
        (-(a as i128)) as u128
    } else {
        a as u128
    }
}

/// Saturating fixed-point addition.
pub fn fp_add(a: i64, b: i64) -> (r: i64)
    ensures
        r == fp_add_s(a, b),
{
    clamp_wide(a as i128 + b as i128)
}

/// Saturating fixed-point subtraction.
pub fn fp_sub(a: i64, b: i64) -> (r: i64)
    ensures
        r == fp_sub_s(a, b),
{
    clamp_wide(a as i128 - b as i128)
}

fn scaled_product(a: i64, b: i64, scale: u128) -> (r: i64)
    requires
        1 <= scale <= u64::MAX as u128,
    ensures
        r == sat64_s(dtz_s(a * b, scale as int)),
{
    let neg: bool = (a < 0) != (b < 0);
    let ma: u128 = abs_wide(a);
    let mb: u128 = abs_wide(b);
    proof {
        lemma_i64_product_fits(ma as int, mb as int);
        lemma_div_magnitude((ma * mb) as int, scale as int);
        assert(abs_i(a as int) * abs_i(b as int) == abs_i(a * b)) by (nonlinear_arith);
    }
    let q: u128 = (ma * mb) / scale;
    if neg {
        if q > i64::MAX as u128 {
            proof {
                assert(a * b != 0 && neg ==> a * b < 0) by (nonlinear_arith)
                    requires
                        neg == ((a < 0) != (b < 0)),
                ;
            }
            -i64::MAX
        } else {
            proof {
                assert(a * b != 0 && neg ==> a * b < 0) by (nonlinear_arith)
                    requires
                        neg == ((a < 0) != (b < 0)),
                ;
            }
            -(q as i64)
        }
    } else {
        proof {
            assert(neg || a * b >= 0) by (nonlinear_arith)
                requires
                    neg == ((a < 0) != (b < 0)),
            ;
        }
        if q > i64::MAX as u128 {
            i64::MAX
        } else {
            q as i64
        }
    }
}

/// Saturating fixed-point multiplication.
pub fn fp_mul(a: i64, b: i64) -> (r: i64)
    ensures
        r == fp_mul_s(a, b),
{
    scaled_product(a, b, FP_ONE as u128)
}

/// Saturating multiplication by a coarse-scale gain factor.
pub fn fp_mul_gain(a: i64, g: i64) -> (r: i64)
    ensures
        r == fp_mul_gain_s(a, g),
{
    scaled_product(a, g, FP_GAIN_ONE as u128)
}

/// Saturating fixed-point division; a zero divisor yields silence (zero).
pub fn fp_div(a: i64, b: i64) -> (r: i64)
    ensures
        r == fp_div_s(a, b),
{
    if b == 0 {
        return 0;
    }
    let neg: bool = (a < 0) != (b < 0);
    let ma: u128 = abs_wide(a);
    let mb: u128 = abs_wide(b);
    proof {
        lemma_i64_product_fits(ma as int, mb as int);
        lemma_i64_product_fits(ma as int, FP_ONE as int);
        lemma_div_magnitude((ma * FP_ONE as u128) as int, mb as int);
        assert(abs_i(a as int) * FP_ONE == abs_i(a * FP_ONE)) by (nonlinear_arith);
        assert((a < 0) == (a * FP_ONE < 0) || a == 0) by (nonlinear_arith)
            requires
                FP_ONE == 1_000_000_000_000,
        ;
    }
    let q: u128 = (ma * (FP_ONE as u128)) / mb;
    if neg {
        if q > i64::MAX as u128 {
            -i64::MAX
        } else {
            -(q as i64)
        }
    } else {
        if q > i64::MAX as u128 {
            i64::MAX
        } else {
            q as i64
        }
    }
}

/// The fixed-point value of a small integer.
pub open spec fn fp_from_int_s(n: int) -> i64 {
    sat64_s(n * FP_ONE)
}

/// The fixed-point value of a small integer.
pub fn fp_from_int(n: i64) -> (r: i64)
    ensures
        r == fp_from_int_s(n as int),
{
    proof {
        vstd::arithmetic::div_mod::lemma_div_basics_2(abs_i(n * FP_ONE));
    }
    scaled_product(n, FP_ONE, 1)
}

/// The n-th power of a fixed-point value, as a left-to-right product chain.
pub open spec fn fp_powi_s(x: i64, n: nat) -> i64
    decreases n,
{
    if n == 0 {
        FP_ONE
    } else {
        fp_mul_s(fp_powi_s(x, (n - 1) as nat), x)
    }
}

/// The n-th power of a fixed-point value.
pub fn fp_powi(x: i64, n: u32) -> (r: i64)
    ensures
        r == fp_powi_s(x, n as nat),
{
    let mut r: i64 = FP_ONE;
    let mut i: u32 = 0;
    while i < n
        invariant
            i <= n,
            r == fp_powi_s(x, i as nat),
        decreases n - i,
    {
        r = fp_mul(r, x);
        i = i + 1;
    }
    r
}

/// Saturating negation.
pub fn fp_neg(a: i64) -> (r: i64)
    ensures
        r == fp_neg_s(a),
{
    if a == i64::MIN {
        i64::MAX
    } else {
        -a
    }
}

/// Saturating absolute value.
pub fn fp_abs(a: i64) -> (r: i64)
    ensures
        r == fp_abs_s(a),
{
    if a < 0 {
        fp_neg(a)
    } else {
        a
    }
}

/// Multiplying by one is exact.
pub proof fn lemma_fp_mul_one(a: i64)
    requires
        a > i64::MIN,
    ensures
        fp_mul_s(a, FP_ONE) == a,
{
    assert(abs_i(a * FP_ONE) == abs_i(a as int) * FP_ONE) by (nonlinear_arith);
    assert(abs_i(a as int) * FP_ONE / FP_ONE as int == abs_i(a as int)) by {
        vstd::arithmetic::div_mod::lemma_div_multiples_vanish(abs_i(a as int), FP_ONE as int);
    }
    assert(a != 0 ==> (a * FP_ONE < 0) == (a < 0)) by (nonlinear_arith);
}

/// Multiplying by one on the left is exact too.
pub proof fn lemma_fp_mul_one_left(a: i64)
    requires
        a > i64::MIN,
    ensures
        fp_mul_s(FP_ONE, a) == a,
{
    lemma_fp_mul_one(a);
    assert(FP_ONE as int * a == a * FP_ONE) by (nonlinear_arith);
}

/// Multiplication is odd in its left argument.
pub proof fn lemma_fp_mul_odd(a: i64, b: i64)
    requires
        a > i64::MIN,
    ensures
        fp_mul_s(fp_neg_s(a), b) == fp_neg_s(fp_mul_s(a, b)),
{
    assert(fp_neg_s(a) == -a);
    vstd::arithmetic::mul::lemma_mul_unary_negation(a as int, b as int);
    assert(abs_i(-(a as int) * b) == abs_i(a * b));
    assert(dtz_s(-(a as int) * b, FP_ONE as int) == -dtz_s(a * b, FP_ONE as int));
}

/// Multiplication is odd in its right argument.
pub proof fn lemma_fp_mul_odd_right(a: i64, b: i64)
    requires
        b > i64::MIN,
    ensures
        fp_mul_s(a, fp_neg_s(b)) == fp_neg_s(fp_mul_s(a, b)),
{
    assert(fp_neg_s(b) == -b);
    assert(a * (-(b as int)) == -(a * b)) by (nonlinear_arith);
    assert(abs_i(-(a as int * b)) == abs_i(a * b));
    assert(dtz_s(-(a as int * b), FP_ONE as int) == -dtz_s(a * b, FP_ONE as int));
}

/// Addition is odd: negating both terms negates the sum.
pub proof fn lemma_fp_add_odd(a: i64, b: i64)
    requires
        a > i64::MIN,
        b > i64::MIN,
    ensures
        fp_add_s(fp_neg_s(a), fp_neg_s(b)) == fp_neg_s(fp_add_s(a, b)),
{
}

/// Subtraction is odd: negating both terms negates the difference.
pub proof fn lemma_fp_sub_odd(a: i64, b: i64)
    requires
        a > i64::MIN,
        b > i64::MIN,
    ensures
        fp_sub_s(fp_neg_s(a), fp_neg_s(b)) == fp_neg_s(fp_sub_s(a, b)),
{
}

/// The square (as a left-to-right power chain) ignores the sign of its base.
pub proof fn lemma_fp_powi2_even(q: i64)
    requires
        q > i64::MIN,
    ensures
        fp_powi_s(fp_neg_s(q), 2) == fp_powi_s(q, 2),
{
    let n = fp_neg_s(q);
    assert(fp_powi_s(n, 0) == FP_ONE);
    assert(fp_powi_s(n, 1) == fp_mul_s(fp_powi_s(n, 0), n));
    assert(fp_powi_s(n, 2) == fp_mul_s(fp_powi_s(n, 1), n));
    assert(fp_powi_s(q, 0) == FP_ONE);
    assert(fp_powi_s(q, 1) == fp_mul_s(fp_powi_s(q, 0), q));
    assert(fp_powi_s(q, 2) == fp_mul_s(fp_powi_s(q, 1), q));
    lemma_fp_mul_odd_right(FP_ONE, q);
    let m1 = fp_mul_s(FP_ONE, q);
    assert(m1 > i64::MIN);
    assert((-(m1 as int)) * (-(q as int)) == m1 * q) by (nonlinear_arith);
    assert(fp_mul_s(fp_neg_s(m1), fp_neg_s(q)) == fp_mul_s(m1, q));
}

/// Division is odd in its numerator.
pub proof fn lemma_fp_div_odd(a: i64, b: i64)
    requires
        a > i64::MIN,
    ensures
        fp_div_s(fp_neg_s(a), b) == fp_neg_s(fp_div_s(a, b)),
{
    assert(fp_neg_s(a) == -a);
    if b != 0 {
        vstd::arithmetic::mul::lemma_mul_unary_negation(a as int, FP_ONE as int);
        assert(abs_i(-(a as int) * FP_ONE) == abs_i(a * FP_ONE));
        assert(dtz_s(-(a as int) * FP_ONE, b as int) == -dtz_s(a * FP_ONE, b as int));
    }
}

/// Multiplying a value within unity by a non-negative factor stays within
/// that factor.
pub proof fn lemma_fp_mul_contracting(a: i64, b: i64)
    requires
        fp_abs_s(a) <= FP_ONE,
        0 <= b,
    ensures
        fp_abs_s(fp_mul_s(a, b)) <= b,
{
    assert(abs_i(a * b) == abs_i(a as int) * b) by (nonlinear_arith)
        requires
            0 <= b,
    ;
    assert(abs_i(a as int) * b <= FP_ONE * b) by (nonlinear_arith)
        requires
            abs_i(a as int) <= FP_ONE && 0 <= b,
    ;
    vstd::arithmetic::div_mod::lemma_div_is_ordered(
        abs_i(a as int) * b,
        FP_ONE * b,
        FP_ONE as int,
    );
    assert(FP_ONE * b == b * FP_ONE) by (nonlinear_arith);
    vstd::arithmetic::div_mod::lemma_div_multiples_vanish(b as int, FP_ONE as int);
    vstd::arithmetic::div_mod::lemma_div_basics_4(abs_i(a as int) * b, FP_ONE as int);
}

/// A product's magnitude is bounded by the scaled product of its factors'
/// bounds.
pub proof fn lemma_fp_mul_magnitude(a: i64, b: i64, bound_a: int, bound_b: int)
    requires
        abs_i(a as int) <= bound_a,
        abs_i(b as int) <= bound_b,
    ensures
        abs_i(fp_mul_s(a, b) as int) <= (bound_a * bound_b) / (FP_ONE as int),
{
    assert(abs_i(a * b) == abs_i(a as int) * abs_i(b as int)) by (nonlinear_arith);
    assert(abs_i(a as int) * abs_i(b as int) <= bound_a * bound_b) by (nonlinear_arith)
        requires
            0 <= abs_i(a as int) <= bound_a && 0 <= abs_i(b as int) <= bound_b,
    ;
    vstd::arithmetic::div_mod::lemma_div_is_ordered(
        abs_i(a * b),
        bound_a * bound_b,
        FP_ONE as int,
    );
    vstd::arithmetic::div_mod::lemma_div_basics_4(abs_i(a * b), FP_ONE as int);
}

/// A quotient's magnitude is bounded by the scaled bound of its numerator.
pub proof fn lemma_fp_div_magnitude(a: i64, b: i64, bound_a: int)
    requires
        abs_i(a as int) <= bound_a,
        b > 0,
    ensures
        abs_i(fp_div_s(a, b) as int) <= (bound_a * FP_ONE) / (b as int),
{
    assert(abs_i(a * FP_ONE) == abs_i(a as int) * FP_ONE) by (nonlinear_arith);
    assert(abs_i(a as int) * FP_ONE <= bound_a * FP_ONE) by (nonlinear_arith)
        requires
            0 <= abs_i(a as int) <= bound_a,
    ;
    vstd::arithmetic::div_mod::lemma_div_is_ordered(
        abs_i(a * FP_ONE),
        bound_a * FP_ONE,
        b as int,
    );
    vstd::arithmetic::div_mod::lemma_div_basics_4(abs_i(a * FP_ONE), b as int);
}

/// A zero factor gives a zero product.
pub proof fn lemma_fp_mul_zero(a: i64)
    ensures
        fp_mul_s(0, a) == 0,
        fp_mul_s(a, 0) == 0,
{
    vstd::arithmetic::div_mod::lemma_div_basics_1(FP_ONE as int);
}

/// A zero numerator gives a zero quotient.
pub proof fn lemma_fp_div_zero(b: i64)
    ensures
        fp_div_s(0, b) == 0,
{
    if b != 0 {
        vstd::arithmetic::div_mod::lemma_div_basics_1(abs_i(b as int));
    }
}

/// The absolute value ignores negation.
pub proof fn lemma_fp_abs_even(a: i64)
    requires
        a > i64::MIN,
    ensures
        fp_abs_s(fp_neg_s(a)) == fp_abs_s(a),
{
}

} // verus!
