//! Repayment settlement and the repayment-request notice.
//!
//! Repayment pulls principal plus accrued interest from the borrower at call
//! time (it is not pre-escrowed), pays the lender net of the lender fee,
//! pays the fee to the protocol's fee recipient, and returns the collateral.
//! A repayment request arms a fixed 48-hour deadline after which the loan
//! becomes liquidation-eligible.

use vstd::prelude::*;

use crate::custody;
use crate::custody::Vault;
use crate::custody::Wallet;
use crate::error::ErrorCode;
use crate::math;
use crate::math::fee_of;
use crate::state::LendingMarket;
use crate::state::Loan;
use crate::state::total_repayment_of;
use crate::REPAYMENT_NOTICE_DURATION;

verus! {

/// The entities a repay request names: the borrower, the market
/// configuration, the loan with its collateral vault, the borrower's two
/// wallets, the lender's wallet of the loan asset, and the fee recipient's
/// wallet of the loan asset.
#[derive(Clone, Copy, Debug, PartialEq, Eq)]
#[verifier::ext_equal]
pub struct RepayLoan {
    /// The borrower signing the request.
    pub borrower: u64,
    /// The singleton market configuration; its *current* lender fee applies.
    pub lending_market: LendingMarket,
    /// The loan being repaid.
    pub loan: Loan,
    /// The collateral vault the loan owns.
    pub collateral_vault: Vault,
    /// The borrower's wallet of the loan asset, debited the repayment.
    pub borrower_loan_token_account: Wallet,
    /// The borrower's wallet of the collateral asset, refunded the collateral.
    pub borrower_collateral_token_account: Wallet,
    /// The lender's wallet of the loan asset, credited net of the fee.
    pub lender_token_account: Wallet,
    /// The fee recipient's wallet of the loan asset.
    pub fee_recipient_token_account: Wallet,
}

impl RepayLoan {
    /// Validated ranges and vault ownership hold, each wallet belongs to the
    /// party it stands for and holds the asset its transfers move, and
    /// refunding the collateral cannot overflow the borrower's wallet.
    pub open spec fn wf(self) -> bool {
        &&& self.lending_market.wf()
        &&& self.loan.wf()
        &&& self.loan.owns_vault(self.collateral_vault)
        &&& self.borrower_loan_token_account.owner == self.borrower
        &&& self.borrower_collateral_token_account.owner == self.borrower
        &&& self.lender_token_account.owner == self.loan.lender
        &&& self.lender_token_account.mint == self.borrower_loan_token_account.mint
        &&& self.fee_recipient_token_account.mint == self.borrower_loan_token_account.mint
        &&& self.borrower_collateral_token_account.mint == self.collateral_vault.mint
        &&& self.borrower_collateral_token_account.amount + self.collateral_vault.amount
            <= u64::MAX
    }
}

/// The exact failure a repay request is rejected with at time `now`, or
/// `None` when it is accepted.
pub open spec fn repay_loan_check(c: RepayLoan, now: i64) -> Option<ErrorCode> {
    if c.borrower != c.loan.borrower {
        Some(ErrorCode::Unauthorized)
    } else if !c.loan.is_active {
        Some(ErrorCode::LoanNotActive)
    } else if c.fee_recipient_token_account.owner != c.lending_market.fee_recipient {
        Some(ErrorCode::InvalidFeeRecipient)
    } else if total_repayment_of(c.loan, now) > u64::MAX {
        Some(ErrorCode::InterestCalculationOverflow)
    } else if total_repayment_of(c.loan, now) * c.lending_market.lender_fee_bps > u64::MAX {
        Some(ErrorCode::InterestCalculationOverflow)
    } else if c.borrower_loan_token_account.amount < total_repayment_of(c.loan, now) {
        Some(ErrorCode::InsufficientFunds)
    } else {
        None
    }
}

/// The state an accepted repay request commits at time `now`: the total owed
/// leaves the borrower's wallet, the lender receives it net of the lender
/// fee, the fee recipient receives the fee, the entire collateral returns to
/// the borrower, and the loan closes.
pub open spec fn repay_loan_apply(c: RepayLoan, now: i64) -> RepayLoan {
    let total = total_repayment_of(c.loan, now);
    let fee = fee_of(total as u64, c.lending_market.lender_fee_bps);
    RepayLoan {
        loan: Loan { is_active: false, ..c.loan },
        collateral_vault: Vault { amount: 0, ..c.collateral_vault },
        borrower_loan_token_account: Wallet {
            amount: (c.borrower_loan_token_account.amount - total) as u64,
            ..c.borrower_loan_token_account
        },
        borrower_collateral_token_account: Wallet {
            amount: (c.borrower_collateral_token_account.amount + c.collateral_vault.amount) as u64,
            ..c.borrower_collateral_token_account
        },
        lender_token_account: Wallet {
            amount: (c.lender_token_account.amount + (total - fee)) as u64,
            ..c.lender_token_account
        },
        fee_recipient_token_account: Wallet {
            amount: (c.fee_recipient_token_account.amount + fee) as u64,
            ..c.fee_recipient_token_account
        },
        ..c
    }
}

/// Repays an active loan at time `now`: pulls principal plus accrued
/// interest from the borrower, pays the lender net of the market's current
/// lender fee, pays the fee to the fee recipient, returns the entire
/// collateral to the borrower, and closes the loan and its vault. Atomic: on
/// failure nothing moves.
pub fn repay_loan_handler(ctx: &mut RepayLoan, now: i64) -> (r: Result<(), ErrorCode>)
    requires
        old(ctx).wf(),
        old(ctx).loan.loan_start_time <= now,
        total_repayment_of(old(ctx).loan, now) <= u64::MAX
            ==> old(ctx).lender_token_account.amount + total_repayment_of(old(ctx).loan, now)
            <= u64::MAX,
        total_repayment_of(old(ctx).loan, now) <= u64::MAX
            ==> old(ctx).fee_recipient_token_account.amount + total_repayment_of(old(ctx).loan, now)
            <= u64::MAX,
    ensures
        match r {
            Ok(()) => repay_loan_check(*old(ctx), now) is None && *final(ctx) == repay_loan_apply(
                *old(ctx),
                now,
            ),
            Err(e) => repay_loan_check(*old(ctx), now) == Some(e) && *final(ctx) == *old(ctx),
        },
        r is Ok ==> final(ctx).borrower_collateral_token_account.amount
            == old(ctx).borrower_collateral_token_account.amount + old(ctx).loan.collateral_amount,
        r is Ok ==> final(ctx).collateral_vault.amount == 0 && !final(ctx).loan.is_active,
        r is Ok ==> final(ctx).loan.owns_vault(final(ctx).collateral_vault),
{
    if ctx.borrower != ctx.loan.borrower {
        return Err(ErrorCode::Unauthorized);
    }
    if !ctx.loan.is_active {
        return Err(ErrorCode::LoanNotActive);
    }
    if ctx.fee_recipient_token_account.owner != ctx.lending_market.fee_recipient {
        return Err(ErrorCode::InvalidFeeRecipient);
    }
    let total_repayment = match ctx.loan.calculate_repayment_amount(now) {
        Ok(total) => total,
        Err(e) => {
            return Err(e);
        },
    };
    let lender_fee = match math::calculate_fee(total_repayment, ctx.lending_market.lender_fee_bps) {
        Ok(fee) => fee,
        Err(e) => {
            return Err(e);
        },
    };
    proof {
        math::lemma_fee_le_amount(total_repayment, ctx.lending_market.lender_fee_bps);
    }
    let lender_receives: u64 = total_repayment - lender_fee;
    if ctx.borrower_loan_token_account.amount < total_repayment {
        return Err(ErrorCode::InsufficientFunds);
    }
    match custody::pay(
        &mut ctx.borrower_loan_token_account,
        &mut ctx.lender_token_account,
        lender_receives,
    ) {
        Ok(()) => {},
        Err(e) => {
            proof {
                assert(false);
            }
            return Err(e);
        },
    }
    match custody::pay(
        &mut ctx.borrower_loan_token_account,
        &mut ctx.fee_recipient_token_account,
        lender_fee,
    ) {
        Ok(()) => {},
        Err(e) => {
            proof {
                assert(false);
            }
            return Err(e);
        },
    }
    custody::close_vault(&mut ctx.collateral_vault, &mut ctx.borrower_collateral_token_account);
    ctx.loan.is_active = false;
    proof {
        assert(*ctx =~= repay_loan_apply(*old(ctx), now));
    }
    Ok(())
}

/// The entities a repayment request names: the lender and the loan.
#[derive(Clone, Copy, Debug, PartialEq, Eq)]
#[verifier::ext_equal]
pub struct RequestRepayment {
    /// The lender signing the request.
    pub lender: u64,
    /// The loan the notice is served on.
    pub loan: Loan,
}

/// The exact failure a repayment request is rejected with, or `None` when it
/// is accepted.
pub open spec fn request_repayment_check(c: RequestRepayment) -> Option<ErrorCode> {
    if c.lender != c.loan.lender {
        Some(ErrorCode::Unauthorized)
    } else if !c.loan.is_active {
        Some(ErrorCode::LoanNotActive)
    } else {
        None
    }
}

/// The state an accepted repayment request commits at time `now`: the
/// deadline armed 48 hours out. A repeated request re-arms it from the new
/// `now`.
pub open spec fn request_repayment_apply(c: RequestRepayment, now: i64) -> RequestRepayment {
    RequestRepayment {
        loan: Loan {
            repayment_deadline: Some((now + REPAYMENT_NOTICE_DURATION) as i64),
            ..c.loan
        },
        ..c
    }
}

/// Serves a repayment notice on an active loan: sets its repayment deadline
/// to `now` plus 48 hours. Once that deadline passes the loan can be
/// liquidated regardless of its health.
pub fn request_repayment_handler(ctx: &mut RequestRepayment, now: i64) -> (r: Result<
    (),
    ErrorCode,
>)
    requires
        now + REPAYMENT_NOTICE_DURATION <= i64::MAX,
    ensures
        match r {
            Ok(()) => request_repayment_check(*old(ctx)) is None && *final(ctx)
                == request_repayment_apply(*old(ctx), now),
            Err(e) => request_repayment_check(*old(ctx)) == Some(e) && *final(ctx) == *old(ctx),
        },
        r is Ok ==> final(ctx).loan.repayment_deadline == Some(
            (now + REPAYMENT_NOTICE_DURATION) as i64,
        ),
{
    if ctx.lender != ctx.loan.lender {
        return Err(ErrorCode::Unauthorized);
    }
    if !ctx.loan.is_active {
        return Err(ErrorCode::LoanNotActive);
    }
    ctx.loan.repayment_deadline = Some(now + REPAYMENT_NOTICE_DURATION);
    proof {
        assert(*ctx =~= request_repayment_apply(*old(ctx), now));
    }
    Ok(())
}

} // verus!
