//! Laws relating the operations: the create/cancel round trip, the
//! exclusivity of terminal states, and the liquidation gate.

use vstd::prelude::*;

use crate::error::ErrorCode;
use crate::liquidate::liquidate_loan_apply;
use crate::liquidate::liquidate_loan_check;
use crate::liquidate::LiquidateLoan;
use crate::offer::cancel_lending_offer_apply;
use crate::offer::cancel_lending_offer_check;
use crate::offer::create_lending_offer_apply;
use crate::offer::create_lending_offer_check;
use crate::offer::CancelLendingOffer;
use crate::offer::CreateLendingOffer;
use crate::repay::repay_loan_apply;
use crate::repay::repay_loan_check;
use crate::repay::RepayLoan;
use crate::math::days_elapsed_of;
use crate::math::interest_of;
use crate::math::lemma_fee_le_amount;
use crate::state::total_repayment_of;
use crate::state::Loan;
use crate::take_loan::take_loan_apply;
use crate::take_loan::take_loan_check;
use crate::take_loan::TakeLoan;
use crate::LIQUIDATION_THRESHOLD_BPS;

verus! {

/// Round trip: cancelling a just-created offer always succeeds and returns
/// exactly the offered amount, leaving the lender's wallet at its original
/// balance and no residual escrow balance.
pub proof fn lemma_create_cancel_round_trip(
    c: CreateLendingOffer,
    offer_id: u64,
    loan_amount: u64,
    interest_rate_bps: u64,
    ltv_bps: u64,
    created_now: i64,
)
    requires
        c.wf(),
        create_lending_offer_check(c, loan_amount, interest_rate_bps, ltv_bps) is None,
    ensures
        ({
            let post = create_lending_offer_apply(
                c,
                offer_id,
                loan_amount,
                interest_rate_bps,
                ltv_bps,
                created_now,
            );
            let cancel = CancelLendingOffer {
                lender: c.lender,
                lending_offer: post.1,
                escrow: post.2,
                lender_token_account: post.0.lender_token_account,
            };
            &&& cancel.wf()
            &&& cancel_lending_offer_check(cancel) is None
            &&& cancel_lending_offer_apply(cancel).lender_token_account
                == c.lender_token_account
            &&& cancel_lending_offer_apply(cancel).escrow.amount == 0
        }),
{
    let post = create_lending_offer_apply(
        c,
        offer_id,
        loan_amount,
        interest_rate_bps,
        ltv_bps,
        created_now,
    );
    let cancel = CancelLendingOffer {
        lender: c.lender,
        lending_offer: post.1,
        escrow: post.2,
        lender_token_account: post.0.lender_token_account,
    };
    assert(cancel_lending_offer_apply(cancel).lender_token_account =~= c.lender_token_account);
}

/// Both ways out of an active offer — consumption by a loan and cancellation
/// — leave it terminal.
pub proof fn lemma_offer_transitions_are_terminal(
    take: TakeLoan,
    collateral_amount: u64,
    now: i64,
    cancel: CancelLendingOffer,
)
    ensures
        !take_loan_apply(take, collateral_amount, now).0.lending_offer.is_active,
        !cancel_lending_offer_apply(cancel).lending_offer.is_active,
{
}

/// An offer that is no longer active cannot be taken again: an otherwise
/// admissible take-loan request on it fails with `OfferNotActive`, whatever
/// collateral is posted.
pub proof fn lemma_inactive_offer_rejects_take(c: TakeLoan, collateral_amount: u64)
    requires
        !c.lending_offer.is_active,
        c.asset_pair_market.loan_mint == c.borrower_loan_token_account.mint,
        c.asset_pair_market.collateral_mint == c.borrower_collateral_token_account.mint,
        c.lending_offer.loan_mint == c.asset_pair_market.loan_mint,
        c.lending_offer.collateral_mint == c.asset_pair_market.collateral_mint,
    ensures
        take_loan_check(c, collateral_amount) == Some(ErrorCode::OfferNotActive),
{
}

/// An offer that is no longer active cannot be cancelled again: the lender's
/// own cancel request on it fails with `OfferNotActive`.
pub proof fn lemma_inactive_offer_rejects_cancel(c: CancelLendingOffer)
    requires
        !c.lending_offer.is_active,
        c.lender == c.lending_offer.lender,
    ensures
        cancel_lending_offer_check(c) == Some(ErrorCode::OfferNotActive),
{
}

/// Both ways out of an active loan — repayment and liquidation — leave it
/// terminal, so the two settlements are mutually exclusive.
pub proof fn lemma_loan_transitions_are_terminal(
    repay: RepayLoan,
    now: i64,
    liquidate: LiquidateLoan,
)
    ensures
        !repay_loan_apply(repay, now).loan.is_active,
        !liquidate_loan_apply(liquidate).loan.is_active,
{
}

/// A closed loan cannot be repaid: the borrower's own repay request on it
/// fails with `LoanNotActive`.
pub proof fn lemma_closed_loan_rejects_repay(c: RepayLoan, now: i64)
    requires
        !c.loan.is_active,
        c.borrower == c.loan.borrower,
    ensures
        repay_loan_check(c, now) == Some(ErrorCode::LoanNotActive),
{
}

/// A closed loan cannot be liquidated: the lender's own liquidation request
/// on it fails with `LoanNotActive`, whatever LTV is supplied.
pub proof fn lemma_closed_loan_rejects_liquidate(c: LiquidateLoan, current_ltv_bps: u64, now: i64)
    requires
        !c.loan.is_active,
        c.lender == c.loan.lender,
    ensures
        liquidate_loan_check(c, current_ltv_bps, now) == Some(ErrorCode::LoanNotActive),
{
}

/// The liquidation gate, on an active loan and an authorized lender: with no
/// deadline armed and an LTV at or below the threshold the request fails
/// with `CannotLiquidateHealthyLoan`; any LTV above the threshold is
/// accepted; and once an armed deadline has passed the request is accepted
/// whatever the supplied LTV.
pub proof fn lemma_liquidation_gating(c: LiquidateLoan, current_ltv_bps: u64, now: i64)
    requires
        c.lender == c.loan.lender,
        c.loan.is_active,
    ensures
        c.loan.repayment_deadline is None && current_ltv_bps <= LIQUIDATION_THRESHOLD_BPS
            ==> liquidate_loan_check(c, current_ltv_bps, now) == Some(
            ErrorCode::CannotLiquidateHealthyLoan,
        ),
        current_ltv_bps > LIQUIDATION_THRESHOLD_BPS ==> liquidate_loan_check(
            c,
            current_ltv_bps,
            now,
        ) is None,
        (match c.loan.repayment_deadline {
            Some(deadline) => now > deadline,
            None => false,
        }) ==> liquidate_loan_check(c, current_ltv_bps, now) is None,
{
}

/// Posting an offer conserves the loan asset: what leaves the lender's
/// wallet is exactly what the new escrow holds.
pub proof fn lemma_create_offer_conserves_value(
    c: CreateLendingOffer,
    offer_id: u64,
    loan_amount: u64,
    interest_rate_bps: u64,
    ltv_bps: u64,
    now: i64,
)
    requires
        create_lending_offer_check(c, loan_amount, interest_rate_bps, ltv_bps) is None,
    ensures
        ({
            let post = create_lending_offer_apply(
                c,
                offer_id,
                loan_amount,
                interest_rate_bps,
                ltv_bps,
                now,
            );
            post.0.lender_token_account.amount + post.2.amount
                == c.lender_token_account.amount
        }),
{
}

/// Cancelling an offer conserves the loan asset: the lender's wallet and the
/// escrow hold the same total before and after.
pub proof fn lemma_cancel_offer_conserves_value(c: CancelLendingOffer)
    requires
        c.wf(),
        cancel_lending_offer_check(c) is None,
    ensures
        ({
            let post = cancel_lending_offer_apply(c);
            post.lender_token_account.amount + post.escrow.amount
                == c.lender_token_account.amount + c.escrow.amount
        }),
{
}

/// Origination conserves both assets: the escrow is split exactly between
/// the borrower's draw and the fee, and the posted collateral moves entirely
/// into the new vault.
pub proof fn lemma_take_loan_conserves_value(c: TakeLoan, collateral_amount: u64, now: i64)
    requires
        c.wf(),
        take_loan_check(c, collateral_amount) is None,
    ensures
        ({
            let post = take_loan_apply(c, collateral_amount, now);
            &&& post.0.borrower_loan_token_account.amount
                + post.0.fee_recipient_token_account.amount + post.0.escrow.amount
                == c.borrower_loan_token_account.amount + c.fee_recipient_token_account.amount
                + c.escrow.amount
            &&& post.0.borrower_collateral_token_account.amount + post.2.amount
                == c.borrower_collateral_token_account.amount
        }),
{
    lemma_fee_le_amount(c.lending_offer.loan_amount, c.lending_market.borrower_fee_bps);
}

/// Repayment conserves both assets: the total owed is split exactly between
/// the lender and the fee recipient, and the collateral returns entirely to
/// the borrower.
pub proof fn lemma_repay_conserves_value(c: RepayLoan, now: i64)
    requires
        c.wf(),
        c.loan.loan_start_time <= now,
        repay_loan_check(c, now) is None,
        c.lender_token_account.amount + total_repayment_of(c.loan, now) <= u64::MAX,
        c.fee_recipient_token_account.amount + total_repayment_of(c.loan, now) <= u64::MAX,
    ensures
        ({
            let post = repay_loan_apply(c, now);
            &&& post.borrower_loan_token_account.amount + post.lender_token_account.amount
                + post.fee_recipient_token_account.amount
                == c.borrower_loan_token_account.amount + c.lender_token_account.amount
                + c.fee_recipient_token_account.amount
            &&& post.borrower_collateral_token_account.amount + post.collateral_vault.amount
                == c.borrower_collateral_token_account.amount + c.collateral_vault.amount
        }),
{
    lemma_interest_is_nonnegative(c.loan, now);
    lemma_fee_le_amount(
        total_repayment_of(c.loan, now) as u64,
        c.lending_market.lender_fee_bps,
    );
}

/// Interest never accrues backwards: from the loan's start on, the accrued
/// interest — and with it the total owed — is nonnegative.
pub proof fn lemma_interest_is_nonnegative(loan: Loan, now: i64)
    requires
        loan.loan_start_time <= now,
    ensures
        0 <= interest_of(loan.principal_amount, loan.interest_rate_bps, loan.loan_start_time, now),
        loan.principal_amount <= total_repayment_of(loan, now),
{
    let days: int = days_elapsed_of(loan.loan_start_time, now);
    vstd::arithmetic::div_mod::lemma_div_pos_is_pos(
        now - loan.loan_start_time,
        crate::SECONDS_PER_DAY as int,
    );
    vstd::arithmetic::mul::lemma_mul_nonnegative(
        loan.principal_amount as int,
        loan.interest_rate_bps as int,
    );
    vstd::arithmetic::mul::lemma_mul_nonnegative(
        loan.principal_amount * loan.interest_rate_bps,
        days,
    );
    vstd::arithmetic::div_mod::lemma_div_pos_is_pos(
        loan.principal_amount * loan.interest_rate_bps * days,
        (crate::BPS_DENOMINATOR * crate::DAYS_PER_YEAR) as int,
    );
}

/// Liquidation conserves the collateral asset: the lender's wallet and the
/// vault hold the same total before and after, so nothing is skimmed on the
/// penalty path.
pub proof fn lemma_liquidate_conserves_value(c: LiquidateLoan)
    requires
        c.wf(),
    ensures
        ({
            let post = liquidate_loan_apply(c);
            post.lender_token_account.amount + post.collateral_vault.amount
                == c.lender_token_account.amount + c.collateral_vault.amount
        }),
{
}

} // verus!
