//! The persisted records of the market: the singleton market configuration,
//! asset pair markets, lending offers, and loans, together with the loan
//! ledger's interest and liquidation-eligibility calculations.

use vstd::prelude::*;

use crate::custody::Vault;
use crate::error::ErrorCode;
use crate::math::days_elapsed_of;
use crate::math::interest_of;
use crate::BPS_DENOMINATOR;
use crate::DAYS_PER_YEAR;
use crate::LIQUIDATION_THRESHOLD_BPS;
use crate::SECONDS_PER_DAY;

verus! {

/// The singleton, per-deployment market configuration. Created once by the
/// admin and never mutated: rate changes require a fresh deployment.
#[derive(Clone, Copy, Debug, PartialEq, Eq)]
#[verifier::ext_equal]
pub struct LendingMarket {
    /// The identity allowed to register asset pairs.
    pub admin: u64,
    /// The identity that protocol fees are paid to.
    pub fee_recipient: u64,
    /// Fee, in basis points, taken out of what the lender is repaid.
    pub lender_fee_bps: u64,
    /// Fee, in basis points, taken out of what the borrower draws.
    pub borrower_fee_bps: u64,
}

impl LendingMarket {
    /// Both fee rates stay within 10000 basis points.
    pub open spec fn wf(self) -> bool {
        self.lender_fee_bps <= BPS_DENOMINATOR && self.borrower_fee_bps <= BPS_DENOMINATOR
    }
}

/// One record per (loan asset, collateral asset) pair; gates whether offers
/// for that pair may be created.
#[derive(Clone, Copy, Debug, PartialEq, Eq)]
#[verifier::ext_equal]
pub struct AssetPairMarket {
    /// The asset that is lent.
    pub loan_mint: u64,
    /// The asset that is posted as collateral.
    pub collateral_mint: u64,
    /// Whether new offers for this pair are accepted.
    pub is_active: bool,
}

/// A lender-posted offer. While active it owns an escrow vault holding
/// exactly `loan_amount` of the loan asset. The pair it was created for is
/// carried as the pair's identifying assets, since a pair's address is a
/// deterministic, collision-free function of them.
#[derive(Clone, Copy, Debug, PartialEq, Eq)]
#[verifier::ext_equal]
pub struct LendingOffer {
    /// The lender who posted the offer.
    pub lender: u64,
    /// The loan asset of the pair the offer belongs to.
    pub loan_mint: u64,
    /// The collateral asset of the pair the offer belongs to.
    pub collateral_mint: u64,
    /// The amount on offer; held in escrow while the offer is active.
    pub loan_amount: u64,
    /// Yearly simple-interest rate in basis points, e.g. 500 = 5% APR.
    pub interest_rate_bps: u64,
    /// Loan-to-value ratio in basis points, e.g. 8000 = 80% LTV.
    pub ltv_bps: u64,
    /// Caller-chosen id; (lender, offer_id) identifies the offer uniquely.
    pub offer_id: u64,
    /// False once the offer is consumed by a loan or cancelled.
    pub is_active: bool,
    /// When the offer was posted.
    pub created_at: i64,
}

impl LendingOffer {
    /// The ranges creation validates: a positive amount, an interest rate of
    /// at most 10000 bps, and an LTV within (0, 10000] bps.
    pub open spec fn wf(self) -> bool {
        &&& self.loan_amount > 0
        &&& self.interest_rate_bps <= BPS_DENOMINATOR
        &&& 0 < self.ltv_bps <= BPS_DENOMINATOR
    }

    /// While an offer is active, its escrow holds the loan asset and exactly
    /// the recorded loan amount.
    pub open spec fn owns_escrow(self, escrow: Vault) -> bool {
        &&& escrow.mint == self.loan_mint
        &&& self.is_active ==> escrow.amount == self.loan_amount
    }
}

/// An active loan. Interest and LTV terms are snapshotted from the offer at
/// origination and never re-read; while active the loan owns a collateral
/// vault holding exactly `collateral_amount` of the collateral asset.
#[derive(Clone, Copy, Debug, PartialEq, Eq)]
#[verifier::ext_equal]
pub struct Loan {
    /// The caller-chosen id of the consumed offer; with `lender` it
    /// identifies that offer uniquely.
    pub offer_id: u64,
    /// The lender, copied from the offer.
    pub lender: u64,
    /// The borrower who took the loan.
    pub borrower: u64,
    /// The amount lent.
    pub principal_amount: u64,
    /// The collateral posted, held in the collateral vault while active.
    pub collateral_amount: u64,
    /// Yearly simple-interest rate in basis points, locked from the offer.
    pub interest_rate_bps: u64,
    /// Loan-to-value ratio in basis points, locked from the offer.
    pub ltv_bps: u64,
    /// When the loan was originated.
    pub loan_start_time: i64,
    /// Recorded at origination; reserved for a compounding extension and not
    /// read by the simple-interest formula.
    pub last_interest_update: i64,
    /// Set by a repayment request; never treated as passed while unset.
    pub repayment_deadline: Option<i64>,
    /// False once the loan is repaid or liquidated.
    pub is_active: bool,
}

/// A loan may be seized when a repayment deadline is set and has passed, or
/// when the caller-supplied current LTV exceeds the liquidation threshold.
pub open spec fn can_liquidate_at(loan: Loan, current_time: i64, current_ltv_bps: u64) -> bool {
    ||| match loan.repayment_deadline {
        Some(deadline) => current_time > deadline,
        None => false,
    }
    ||| current_ltv_bps > LIQUIDATION_THRESHOLD_BPS
}

/// The total owed at `now`: principal plus accrued simple interest.
pub open spec fn total_repayment_of(loan: Loan, now: i64) -> int {
    loan.principal_amount + interest_of(
        loan.principal_amount,
        loan.interest_rate_bps,
        loan.loan_start_time,
        now,
    )
}

impl Loan {
    /// The terms a loan snapshots from its offer keep the offer's validated
    /// ranges.
    pub open spec fn wf(self) -> bool {
        &&& self.interest_rate_bps <= BPS_DENOMINATOR
        &&& 0 < self.ltv_bps <= BPS_DENOMINATOR
    }

    /// While a loan is active, its collateral vault holds exactly the
    /// recorded collateral amount.
    pub open spec fn owns_vault(self, vault: Vault) -> bool {
        self.is_active ==> vault.amount == self.collateral_amount
    }

    /// The interest owed at `current_time`, failing exactly when the widened
    /// result does not fit the amount type.
    pub fn calculate_interest(&self, current_time: i64) -> (r: Result<u64, ErrorCode>)
        requires
            self.wf(),
            self.loan_start_time <= current_time,
        ensures
            r is Ok <==> interest_of(
                self.principal_amount,
                self.interest_rate_bps,
                self.loan_start_time,
                current_time,
            ) <= u64::MAX,
            r matches Ok(i) ==> i == interest_of(
                self.principal_amount,
                self.interest_rate_bps,
                self.loan_start_time,
                current_time,
            ),
            r matches Err(e) ==> e == ErrorCode::InterestCalculationOverflow,
    {
        let elapsed_wide: i128 = (current_time as i128) - (self.loan_start_time as i128);
        let elapsed: u128 = elapsed_wide as u128;
        let days: u128 = elapsed / (SECONDS_PER_DAY as u128);
        proof {
            assert(days == days_elapsed_of(self.loan_start_time, current_time));
            vstd::arithmetic::div_mod::lemma_div_is_ordered(
                elapsed as int,
                0xffffffffffffffffint,
                SECONDS_PER_DAY as int,
            );
            assert(0xffffffffffffffffint / 86400 < 0x1000000000000int);
            vstd::arithmetic::mul::lemma_mul_upper_bound(
                self.principal_amount as int,
                u64::MAX as int,
                self.interest_rate_bps as int,
                BPS_DENOMINATOR as int,
            );
        }
        let rate_scaled: u128 = (self.principal_amount as u128) * (self.interest_rate_bps as u128);
        proof {
            vstd::arithmetic::mul::lemma_mul_upper_bound(
                rate_scaled as int,
                0xffffffffffffffffint * 10000,
                days as int,
                0x1000000000000int,
            );
        }
        let numerator: u128 = rate_scaled * days;
        assert((BPS_DENOMINATOR as u128) * (DAYS_PER_YEAR as u128) == 3650000) by (nonlinear_arith);
        let interest: u128 = numerator / ((BPS_DENOMINATOR as u128) * (DAYS_PER_YEAR as u128));
        if interest > u64::MAX as u128 {
            Err(ErrorCode::InterestCalculationOverflow)
        } else {
            Ok(interest as u64)
        }
    }

    /// The total repayment owed at `current_time`: principal plus interest,
    /// failing exactly when the widened sum does not fit the amount type.
    pub fn calculate_repayment_amount(&self, current_time: i64) -> (r: Result<u64, ErrorCode>)
        requires
            self.wf(),
            self.loan_start_time <= current_time,
        ensures
            r is Ok <==> total_repayment_of(*self, current_time) <= u64::MAX,
            r matches Ok(t) ==> t == total_repayment_of(*self, current_time),
            r matches Err(e) ==> e == ErrorCode::InterestCalculationOverflow,
    {
        let interest = match self.calculate_interest(current_time) {
            Ok(interest) => interest,
            Err(e) => {
                return Err(e);
            },
        };
        match self.principal_amount.checked_add(interest) {
            Some(total) => Ok(total),
            None => Err(ErrorCode::InterestCalculationOverflow),
        }
    }

    /// Whether the loan is liquidation-eligible at `current_time` given the
    /// caller-supplied current LTV.
    pub fn can_liquidate(&self, current_time: i64, current_ltv_bps: u64) -> (r: bool)
        ensures
            r == can_liquidate_at(*self, current_time, current_ltv_bps),
    {
        match self.repayment_deadline {
            Some(deadline) => {
                if current_time > deadline {
                    return true;
                }
            },
            None => {},
        }
        current_ltv_bps > LIQUIDATION_THRESHOLD_BPS
    }
}

} // verus!
