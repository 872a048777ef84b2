use vstd::prelude::*;
use vstd::arithmetic::div_mod::{
    lemma_div_is_ordered, lemma_div_multiples_vanish, lemma_div_pos_is_pos,
};
use vstd::arithmetic::mul::{
    lemma_mul_inequality, lemma_mul_is_commutative, lemma_mul_nonnegative,
};
use crate::math::lemma_frac_le;

verus! {

/// Gross output of the pricing curve: a scaled net input `s` buys
/// `out_r * s / (in_r + s)` out of the output reserve — the monotone
/// constant-product form taken on the pool's current reserves. Meaningful
/// for `in_r + s > 0`; defined as 0 on an empty denominator (the executable
/// engine treats that denominator as a division fault instead).
pub open spec fn curve_gross_out(out_r: int, in_r: int, s: int) -> int {
    if in_r + s <= 0 {
        0
    } else {
        out_r * s / (in_r + s)
    }
}

/// The curve never pays out more than the output reserve holds.
pub proof fn lemma_curve_bounded(out_r: int, in_r: int, s: int)
    requires
        0 <= out_r,
        0 <= in_r,
        0 <= s,
    ensures
        0 <= curve_gross_out(out_r, in_r, s) <= out_r,
{
    if in_r + s > 0 {
        let den = in_r + s;
        lemma_mul_nonnegative(out_r, s);
        lemma_div_pos_is_pos(out_r * s, den);
        lemma_mul_inequality(s, den, out_r);
        lemma_mul_is_commutative(s, out_r);
        lemma_mul_is_commutative(den, out_r);
        lemma_div_is_ordered(out_r * s, out_r * den, den);
        lemma_mul_is_commutative(out_r, den);
        lemma_div_multiples_vanish(out_r, den);
    }
}

/// For fixed reserves the curve's gross output is non-decreasing in the
/// scaled input.
pub proof fn lemma_curve_monotone(out_r: int, in_r: int, s1: int, s2: int)
    requires
        0 <= out_r,
        0 <= in_r,
        0 <= s1 <= s2,
    ensures
        curve_gross_out(out_r, in_r, s1) <= curve_gross_out(out_r, in_r, s2),
{
    if in_r + s1 <= 0 {
        lemma_curve_bounded(out_r, in_r, s2);
    } else {
        lemma_mul_nonnegative(out_r, s1);
        assert((out_r * s1) * (in_r + s2) <= (out_r * s2) * (in_r + s1)) by (nonlinear_arith)
            requires
                0 <= out_r,
                0 <= in_r,
                0 <= s1,
                s1 <= s2,
        ;
        lemma_frac_le(out_r * s1, in_r + s1, out_r * s2, in_r + s2);
    }
}

/// Gross curve output on 64-bit reserves, exact via 128-bit arithmetic. The
/// result never exceeds the output reserve, so it fits back into 64 bits.
pub fn curve_out(out_reserve: u64, in_reserve: u64, scaled_in: u64) -> (r: u64)
    requires
        in_reserve as int + scaled_in as int > 0,
    ensures
        r == curve_gross_out(out_reserve as int, in_reserve as int, scaled_in as int),
        r <= out_reserve,
{
    proof {
        lemma_curve_bounded(out_reserve as int, in_reserve as int, scaled_in as int);
        assert((out_reserve as int) * (scaled_in as int) <= (u64::MAX as int) * (u64::MAX as int))
            by (nonlinear_arith)
            requires
                out_reserve <= u64::MAX,
                scaled_in <= u64::MAX,
        ;
    }
    let num: u128 = (out_reserve as u128) * (scaled_in as u128);
    let den: u128 = (in_reserve as u128) + (scaled_in as u128);
    (num / den) as u64
}

} // verus!
