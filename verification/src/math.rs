use vstd::prelude::*;
use vstd::arithmetic::div_mod::{
    lemma_div_by_multiple, lemma_div_is_ordered, lemma_div_multiples_vanish, lemma_div_pos_is_pos,
    lemma_fundamental_div_mod, lemma_fundamental_div_mod_converse_div,
    lemma_mod_division_less_than_divisor, lemma_multiply_divide_lt,
};
use vstd::arithmetic::mul::{
    lemma_mul_inequality, lemma_mul_is_commutative, lemma_mul_nonnegative,
};
use crate::FEE_SCALE;

verus! {

/// Floor of `x * num / denom`, the fixed-point primitive every piece of
/// engine arithmetic reduces to; meaningful for `denom > 0` and defined as 0
/// on a non-positive denominator.
pub open spec fn mul_div(x: int, num: int, denom: int) -> int {
    if denom <= 0 {
        0
    } else {
        x * num / denom
    }
}

/// Fee withheld from `x` at fixed-point `rate` (scale `FEE_SCALE`).
pub open spec fn fee_of(x: int, rate: int) -> int {
    mul_div(x, rate, FEE_SCALE as int)
}

/// Net tradable amount of `x` once the fee at `rate` is withheld.
pub open spec fn net_of(x: int, rate: int) -> int {
    x - fee_of(x, rate)
}

/// A scaled product of non-negative values is non-negative.
pub proof fn lemma_mul_div_nonneg(x: int, num: int, denom: int)
    requires
        0 <= x,
        0 <= num,
    ensures
        0 <= mul_div(x, num, denom),
{
    if denom > 0 {
        lemma_mul_nonnegative(x, num);
        lemma_div_pos_is_pos(x * num, denom);
    }
}

/// A part taken at a fraction of at most one never exceeds the whole.
pub proof fn lemma_mul_div_le(x: int, num: int, denom: int)
    requires
        0 <= x,
        0 <= num <= denom,
        0 < denom,
    ensures
        0 <= mul_div(x, num, denom) <= x,
{
    lemma_mul_nonnegative(x, num);
    lemma_div_pos_is_pos(x * num, denom);
    lemma_mul_inequality(num, denom, x);
    lemma_mul_is_commutative(num, x);
    lemma_mul_is_commutative(denom, x);
    lemma_div_is_ordered(x * num, x * denom, denom);
    lemma_mul_is_commutative(x, denom);
    lemma_div_multiples_vanish(x, denom);
}

/// A fee at a rate within the scale never exceeds the amount it is charged
/// on.
pub proof fn lemma_fee_le(x: int, rate: int)
    requires
        0 <= x,
        0 <= rate <= FEE_SCALE as int,
    ensures
        0 <= fee_of(x, rate) <= x,
{
    lemma_mul_div_le(x, rate, FEE_SCALE as int);
}

/// Floor division preserves the order of two fractions whose cross products
/// are ordered.
pub proof fn lemma_frac_le(a1: int, b1: int, a2: int, b2: int)
    requires
        0 <= a1,
        0 < b1,
        0 < b2,
        a1 * b2 <= a2 * b1,
    ensures
        a1 / b1 <= a2 / b2,
{
    let q = a1 / b1;
    lemma_div_pos_is_pos(a1, b1);
    lemma_fundamental_div_mod(a1, b1);
    lemma_mod_division_less_than_divisor(a1, b1);
    assert(b1 * q <= a1);
    assert((q * b2) * b1 <= a2 * b1) by (nonlinear_arith)
        requires
            b1 * q <= a1,
            a1 * b2 <= a2 * b1,
            0 < b1,
            0 < b2,
    ;
    assert(q * b2 <= a2) by (nonlinear_arith)
        requires
            (q * b2) * b1 <= a2 * b1,
            0 < b1,
    ;
    lemma_div_is_ordered(q * b2, a2, b2);
    lemma_div_by_multiple(q, b2);
}

/// A scaled product is monotone in the value being scaled.
pub proof fn lemma_mul_div_monotone(x1: int, x2: int, num: int, denom: int)
    requires
        0 <= x1 <= x2,
        0 <= num,
    ensures
        mul_div(x1, num, denom) <= mul_div(x2, num, denom),
{
    if denom > 0 {
        lemma_mul_inequality(x1, x2, num);
        lemma_div_is_ordered(x1 * num, x2 * num, denom);
    }
}

/// A larger gross amount never leaves a smaller net amount: the floored fee
/// grows by at most the growth of the amount it is charged on.
pub proof fn lemma_net_monotone(x1: int, x2: int, rate: int)
    requires
        0 <= x1 <= x2,
        0 <= rate <= FEE_SCALE as int,
    ensures
        net_of(x1, rate) <= net_of(x2, rate),
{
    let f = FEE_SCALE as int;
    let d = x2 - x1;
    if x1 == x2 {
    } else if rate == f {
        // the fee is the whole amount on both sides, the net is 0 twice over
        assert(x1 * f / f == x1) by {
            lemma_mul_is_commutative(x1, f);
            lemma_div_multiples_vanish(x1, f);
        }
        assert(x2 * f / f == x2) by {
            lemma_mul_is_commutative(x2, f);
            lemma_div_multiples_vanish(x2, f);
        }
    } else {
        let a = x1 * rate;
        let b = d * rate;
        assert(x2 * rate == a + b) by (nonlinear_arith)
            requires
                a == x1 * rate,
                b == (x2 - x1) * rate,
                d == x2 - x1,
        ;
        lemma_mul_nonnegative(x1, rate);
        lemma_mul_nonnegative(d, rate);
        let qa = a / f;
        let ra = a % f;
        let qb = b / f;
        let rb = b % f;
        lemma_fundamental_div_mod(a, f);
        lemma_fundamental_div_mod(b, f);
        lemma_mod_division_less_than_divisor(a, f);
        lemma_mod_division_less_than_divisor(b, f);
        // splitting the dividend costs at most one extra unit of quotient
        if ra + rb < f {
            assert(a + b == (qa + qb) * f + (ra + rb)) by (nonlinear_arith)
                requires
                    a == f * qa + ra,
                    b == f * qb + rb,
            ;
            lemma_fundamental_div_mod_converse_div(a + b, f, qa + qb, ra + rb);
        } else {
            assert(a + b == (qa + qb + 1) * f + (ra + rb - f)) by (nonlinear_arith)
                requires
                    a == f * qa + ra,
                    b == f * qb + rb,
            ;
            lemma_fundamental_div_mod_converse_div(a + b, f, qa + qb + 1, ra + rb - f);
        }
        assert((a + b) / f <= qa + qb + 1);
        // the fee growth on the added amount stays strictly under that amount
        assert(b < f * d) by (nonlinear_arith)
            requires
                b == d * rate,
                rate < f,
                d > 0,
        ;
        lemma_multiply_divide_lt(b, f, d);
    }
}

/// Fee on `amount` at `rate`, computed exactly in 128-bit arithmetic.
pub fn fee_amount(amount: u64, rate: u64) -> (r: u64)
    requires
        rate <= FEE_SCALE,
    ensures
        r == fee_of(amount as int, rate as int),
        r <= amount,
{
    proof {
        lemma_fee_le(amount as int, rate as int);
        assert((amount as int) * (rate as int) <= (u64::MAX as int) * (FEE_SCALE as int))
            by (nonlinear_arith)
            requires
                amount <= u64::MAX,
                rate <= FEE_SCALE,
        ;
    }
    (((amount as u128) * (rate as u128)) / (FEE_SCALE as u128)) as u64
}

/// Floor of `x * num / denom` on 64-bit values, exact via 128-bit
/// arithmetic; `None` when the quotient does not fit in 64 bits.
pub fn mul_div_u64(x: u64, num: u64, denom: u64) -> (r: Option<u64>)
    requires
        denom > 0,
    ensures
        match r {
            Some(v) => v == mul_div(x as int, num as int, denom as int),
            None => mul_div(x as int, num as int, denom as int) > u64::MAX,
        },
{
    proof {
        assert((x as int) * (num as int) <= (u64::MAX as int) * (u64::MAX as int))
            by (nonlinear_arith)
            requires
                x <= u64::MAX,
                num <= u64::MAX,
        ;
    }
    let q: u128 = ((x as u128) * (num as u128)) / (denom as u128);
    if q <= u64::MAX as u128 {
        Some(q as u64)
    } else {
        None
    }
}

} // verus!
