//! The fee, collateral-sizing and interest calculator: pure arithmetic used
//! by the offer book and the loan ledger, with the floor-division facts the
//! rest of the crate relies on.

use vstd::prelude::*;

use crate::error::ErrorCode;
use crate::BPS_DENOMINATOR;
use crate::DAYS_PER_YEAR;
use crate::SECONDS_PER_DAY;

verus! {

/// The protocol fee on `amount` at `fee_bps` basis points:
/// `floor(amount * fee_bps / 10000)`.
pub open spec fn fee_of(amount: u64, fee_bps: u64) -> int {
    amount * fee_bps / (BPS_DENOMINATOR as int)
}

/// The collateral an offer of `loan_amount` at `ltv_bps` requires:
/// `floor(loan_amount * 10000 / ltv_bps)`, the inverse of
/// LTV = loan / collateral.
pub open spec fn required_collateral_of(loan_amount: u64, ltv_bps: u64) -> int {
    loan_amount * (BPS_DENOMINATOR as int) / (ltv_bps as int)
}

/// Whole days elapsed from `start` to `now`.
pub open spec fn days_elapsed_of(start: i64, now: i64) -> int {
    (now - start) / (SECONDS_PER_DAY as int)
}

/// Simple, non-compounding interest on `principal` at `rate_bps` basis
/// points per year, accrued over the whole days between `start` and `now`:
/// `floor(principal * rate_bps * days / (10000 * 365))`.
pub open spec fn interest_of(principal: u64, rate_bps: u64, start: i64, now: i64) -> int {
    principal * rate_bps * days_elapsed_of(start, now)
        / ((BPS_DENOMINATOR * DAYS_PER_YEAR) as int)
}

/// A fee never exceeds the amount it is charged on, so `amount - fee` can
/// never underflow: for every rate of at most 10000 basis points,
/// `0 <= floor(amount * fee_bps / 10000) <= amount`.
pub proof fn lemma_fee_le_amount(amount: u64, fee_bps: u64)
    requires
        fee_bps <= BPS_DENOMINATOR,
    ensures
        0 <= fee_of(amount, fee_bps) <= amount,
{
    let b: int = BPS_DENOMINATOR as int;
    vstd::arithmetic::mul::lemma_mul_upper_bound(amount as int, amount as int, fee_bps as int, b);
    vstd::arithmetic::div_mod::lemma_div_is_ordered(amount * fee_bps, amount * b, b);
    vstd::arithmetic::div_mod::lemma_div_multiples_vanish(amount as int, b);
    vstd::arithmetic::mul::lemma_mul_is_commutative(amount as int, b);
    vstd::arithmetic::div_mod::lemma_div_pos_is_pos(amount * fee_bps, b);
    vstd::arithmetic::mul::lemma_mul_nonnegative(amount as int, fee_bps as int);
}

/// Floor-division correctness of collateral sizing: the required collateral
/// is the least whole amount whose value at `ltv_bps` covers the loan, i.e.
/// `required * ltv <= loan * 10000 < required * ltv + ltv`.
pub proof fn lemma_required_collateral_bounds(loan_amount: u64, ltv_bps: u64)
    requires
        0 < ltv_bps <= BPS_DENOMINATOR,
    ensures
        required_collateral_of(loan_amount, ltv_bps) * ltv_bps <= loan_amount * BPS_DENOMINATOR,
        loan_amount * BPS_DENOMINATOR
            < required_collateral_of(loan_amount, ltv_bps) * ltv_bps + ltv_bps,
{
    let scaled: int = loan_amount * (BPS_DENOMINATOR as int);
    let ltv: int = ltv_bps as int;
    vstd::arithmetic::div_mod::lemma_fundamental_div_mod(scaled, ltv);
    vstd::arithmetic::div_mod::lemma_mod_bound(scaled, ltv);
    vstd::arithmetic::mul::lemma_mul_is_commutative(ltv, scaled / ltv);
}

/// Computes the protocol fee `floor(amount * fee_bps / 10000)`, failing
/// exactly when the widened product does not fit the amount type.
pub fn calculate_fee(amount: u64, fee_bps: u64) -> (r: Result<u64, ErrorCode>)
    ensures
        r is Ok <==> amount * fee_bps <= u64::MAX,
        r matches Ok(f) ==> f == fee_of(amount, fee_bps),
        r matches Err(e) ==> e == ErrorCode::InterestCalculationOverflow,
{
    match amount.checked_mul(fee_bps) {
        Some(product) => Ok(product / BPS_DENOMINATOR),
        None => Err(ErrorCode::InterestCalculationOverflow),
    }
}

} // verus!
