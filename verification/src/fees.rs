//! Pure fee arithmetic: integer fee splits in hundred-thousandths of a gross
//! amount, rounded down, with every intermediate checked against `u64` range.
use vstd::prelude::*;
use vstd::arithmetic::div_mod::{
    lemma_div_is_ordered, lemma_div_multiples_vanish, lemma_div_pos_is_pos,
    lemma_fundamental_div_mod, lemma_fundamental_div_mod_converse,
};
use vstd::arithmetic::mul::lemma_mul_inequality;
use crate::{BASIS_POINTS, BURN_FEE_BPS, RAFFLE_FEE_BPS, SELL_BURN_FEE_BPS};
use crate::state::ErrorCode;

verus! {

/// The fee owed on `gross` at `rate_bps` hundred-thousandths, rounded down.
pub open spec fn spec_fee(gross: int, rate_bps: int) -> int {
    gross * rate_bps / (BASIS_POINTS as int)
}

/// Computes `spec_fee(gross, rate_bps)`, failing with `ArithmeticOverflow`
/// exactly when the intermediate product does not fit in a `u64`.
pub fn fee(gross: u64, rate_bps: u16) -> (r: Result<u64, ErrorCode>)
    ensures
        match r {
            Ok(f) => gross * rate_bps <= u64::MAX && f == spec_fee(gross as int, rate_bps as int),
            Err(e) => gross * rate_bps > u64::MAX && e == ErrorCode::ArithmeticOverflow,
        },
{
    match gross.checked_mul(rate_bps as u64) {
        Some(product) => Ok(product / (BASIS_POINTS as u64)),
        None => Err(ErrorCode::ArithmeticOverflow),
    }
}

/// Two fees taken from the same gross amount at rates that sum below 100%
/// never exceed the gross amount: the buy-side net-to-buyer subtraction
/// cannot underflow.
pub proof fn lemma_fee_pair_bounded(gross: int, rate_a: int, rate_b: int)
    requires
        gross >= 0,
        0 <= rate_a,
        0 <= rate_b,
        rate_a + rate_b <= BASIS_POINTS,
    ensures
        spec_fee(gross, rate_a) >= 0,
        spec_fee(gross, rate_b) >= 0,
        spec_fee(gross, rate_a) + spec_fee(gross, rate_b) <= gross,
{
    let d = BASIS_POINTS as int;
    let a = gross * rate_a;
    let b = gross * rate_b;
    assert(gross * rate_a >= 0 && gross * rate_b >= 0) by (nonlinear_arith)
        requires
            gross >= 0,
            rate_a >= 0,
            rate_b >= 0,
    ;
    lemma_div_pos_is_pos(a, d);
    lemma_div_pos_is_pos(b, d);
    // floor(a/d) + floor(b/d) <= floor((a+b)/d)
    lemma_fundamental_div_mod(a, d);
    lemma_fundamental_div_mod(b, d);
    let qa = a / d;
    let qb = b / d;
    let ra = a % d;
    let rb = b % d;
    if ra + rb < d {
        lemma_fundamental_div_mod_converse(a + b, d, qa + qb, ra + rb);
    } else {
        lemma_fundamental_div_mod_converse(a + b, d, qa + qb + 1, ra + rb - d);
    }
    // (a+b)/d == gross * (rate_a + rate_b) / d <= gross * d / d == gross
    assert(gross * rate_a + gross * rate_b == gross * (rate_a + rate_b)) by (nonlinear_arith);
    lemma_mul_inequality(rate_a + rate_b, d, gross);
    assert(gross * (rate_a + rate_b) == (rate_a + rate_b) * gross) by (nonlinear_arith);
    assert(gross * d == d * gross) by (nonlinear_arith);
    lemma_div_is_ordered(a + b, gross * d, d);
    lemma_div_multiples_vanish(gross, d);
}

/// A fee at any rate up to 100% never exceeds the gross amount itself.
pub proof fn lemma_fee_le_gross(gross: int, rate_bps: int)
    requires
        gross >= 0,
        0 <= rate_bps <= BASIS_POINTS,
    ensures
        0 <= spec_fee(gross, rate_bps) <= gross,
{
    lemma_fee_pair_bounded(gross, rate_bps, 0);
    assert(gross * 0 == 0) by (nonlinear_arith);
    lemma_div_multiples_vanish(0, BASIS_POINTS as int);
    assert(spec_fee(gross, 0) == 0);
}

} // verus!
