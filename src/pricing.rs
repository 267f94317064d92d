//! Constant-product pricing with a 0.3% fee, rounded down.
use vstd::prelude::*;
use vstd::arithmetic::div_mod::{lemma_div_is_ordered, lemma_div_by_multiple,
    lemma_div_by_multiple_is_strongly_ordered};
use vstd::arithmetic::mul::{lemma_mul_inequality, lemma_mul_is_commutative};
use crate::wide::{Wide, wide_bound, wide_from_u128, wide_checked_add, wide_checked_mul,
    wide_checked_div, wide_to_u128};

verus! {

/// What the trader keeps of each unit put in, in thousandths.
pub const FEE_NUMERATOR: u128 = 997;

/// The scale of `FEE_NUMERATOR`.
pub const FEE_DENOMINATOR: u128 = 1000;

/// The input after the fee is taken, scaled by `FEE_DENOMINATOR`.
pub open spec fn amount_in_with_fee(amount_in: int) -> int {
    amount_in * FEE_NUMERATOR
}

/// The output of a swap of `amount_in` against reserves
/// `reserve_in` / `reserve_out`: `floor(a * 997 * R_out / (R_in * 1000 + a * 997))`,
/// and zero for a zero input.
pub open spec fn amount_out_of(amount_in: int, reserve_in: int, reserve_out: int) -> int {
    if amount_in == 0 {
        0
    } else {
        (amount_in_with_fee(amount_in) * reserve_out) / (reserve_in * FEE_DENOMINATOR + amount_in_with_fee(
            amount_in,
        ))
    }
}

/// Whether the numerator of the formula fits in 256 bits.
pub open spec fn numerator_fits(amount_in: int, reserve_out: int) -> bool {
    amount_in_with_fee(amount_in) * reserve_out < wide_bound()
}

/// The output never exceeds the output reserve, and stays below it when
/// both reserves are positive.
pub proof fn lemma_amount_out_bounded(amount_in: int, reserve_in: int, reserve_out: int)
    requires
        amount_in >= 0,
        reserve_in >= 0,
        reserve_out >= 0,
    ensures
        0 <= amount_out_of(amount_in, reserve_in, reserve_out) <= reserve_out,
        reserve_in > 0 && reserve_out > 0 ==> amount_out_of(amount_in, reserve_in, reserve_out)
            < reserve_out,
{
    if amount_in > 0 {
        let f = amount_in_with_fee(amount_in);
        let den = reserve_in * FEE_DENOMINATOR + f;
        assert(f > 0);
        assert(den >= f);
        assert(0 <= f * reserve_out) by (nonlinear_arith)
            requires
                f > 0,
                reserve_out >= 0,
        ;
        lemma_mul_inequality(f, den, reserve_out);
        lemma_mul_is_commutative(den, reserve_out);
        lemma_div_is_ordered(f * reserve_out, reserve_out * den, den);
        lemma_div_by_multiple(reserve_out, den);
        assert(0 <= (f * reserve_out) / den) by (nonlinear_arith)
            requires
                f * reserve_out >= 0,
                den > 0,
        ;
        if reserve_in > 0 && reserve_out > 0 {
            assert(f * reserve_out < den * reserve_out) by (nonlinear_arith)
                requires
                    f < den,
                    reserve_out > 0,
            ;
            lemma_div_by_multiple_is_strongly_ordered(f * reserve_out, den * reserve_out, reserve_out, den);
        }
    }
}

/// The output of a swap of `amount_in` against `reserve_in` / `reserve_out`,
/// with the intermediate products in 256 bits. `None` where the numerator
/// `amount_in * 997 * reserve_out` does not fit in 256 bits.
pub fn get_amount_out(amount_in: u128, reserve_in: u128, reserve_out: u128) -> (r: Option<u128>)
    ensures
        r == (if numerator_fits(amount_in as int, reserve_out as int) {
            Some(amount_out_of(amount_in as int, reserve_in as int, reserve_out as int) as u128)
        } else {
            None::<u128>
        }),
        r.is_some() ==> r.unwrap() <= reserve_out,
{
    proof {
        lemma_amount_out_bounded(amount_in as int, reserve_in as int, reserve_out as int);
    }
    if amount_in == 0 {
        assert(amount_in_with_fee(0) == 0);
        assert(0 * (reserve_out as int) == 0) by (nonlinear_arith);
        return Some(0);
    }
    let fee = wide_from_u128(FEE_NUMERATOR);
    let scale = wide_from_u128(FEE_DENOMINATOR);
    let a = wide_from_u128(amount_in);
    let r_in = wide_from_u128(reserve_in);
    let r_out = wide_from_u128(reserve_out);
    assert(amount_in * 997 < wide_bound()) by (nonlinear_arith)
        requires
            amount_in <= u128::MAX,
            u128::MAX * 1000 < wide_bound(),
    ;
    let with_fee = wide_checked_mul(a, fee).unwrap();
    let numerator = match wide_checked_mul(with_fee, r_out) {
        Some(n) => n,
        None => {
            return None;
        },
    };
    assert(reserve_in * 1000 < wide_bound()) by (nonlinear_arith)
        requires
            reserve_in <= u128::MAX,
            u128::MAX * 1000 < wide_bound(),
    ;
    let scaled_in = wide_checked_mul(r_in, scale).unwrap();
    assert(reserve_in * 1000 + amount_in * 997 < wide_bound()) by (nonlinear_arith)
        requires
            reserve_in <= u128::MAX,
            amount_in <= u128::MAX,
            u128::MAX * 2000 < wide_bound(),
    ;
    let denominator = wide_checked_add(scaled_in, with_fee).unwrap();
    let quotient = wide_checked_div(numerator, denominator).unwrap();
    wide_to_u128(quotient)
}

} // verus!
