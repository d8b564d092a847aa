//! Liquidation: when a loan is past an armed repayment deadline or its
//! caller-supplied current LTV exceeds the liquidation threshold, the lender
//! seizes the entire collateral. No fee is charged on this path: it is a
//! penalty recovery, not a revenue path.

use vstd::prelude::*;

use crate::custody;
use crate::custody::Vault;
use crate::custody::Wallet;
use crate::error::ErrorCode;
use crate::state::can_liquidate_at;
use crate::state::Loan;

verus! {

/// The entities a liquidation request names: the lender, the loan with its
/// collateral vault, and the lender's wallet of the collateral asset.
#[derive(Clone, Copy, Debug, PartialEq, Eq)]
#[verifier::ext_equal]
pub struct LiquidateLoan {
    /// The lender signing the request.
    pub lender: u64,
    /// The loan to liquidate.
    pub loan: Loan,
    /// The collateral vault the loan owns.
    pub collateral_vault: Vault,
    /// The lender's wallet of the collateral asset, credited the seizure.
    pub lender_token_account: Wallet,
}

impl LiquidateLoan {
    /// Validated ranges and vault ownership hold, the seizure wallet is the
    /// signing lender's wallet of the collateral asset, and the seizure
    /// cannot overflow it.
    pub open spec fn wf(self) -> bool {
        &&& self.loan.wf()
        &&& self.loan.owns_vault(self.collateral_vault)
        &&& self.lender_token_account.owner == self.lender
        &&& self.lender_token_account.mint == self.collateral_vault.mint
        &&& self.lender_token_account.amount + self.collateral_vault.amount <= u64::MAX
    }
}

/// The exact failure a liquidation request is rejected with at time `now`
/// given the caller-supplied LTV, or `None` when it is accepted.
pub open spec fn liquidate_loan_check(c: LiquidateLoan, current_ltv_bps: u64, now: i64) -> Option<
    ErrorCode,
> {
    if c.lender != c.loan.lender {
        Some(ErrorCode::Unauthorized)
    } else if !c.loan.is_active {
        Some(ErrorCode::LoanNotActive)
    } else if !can_liquidate_at(c.loan, now, current_ltv_bps) {
        Some(ErrorCode::CannotLiquidateHealthyLoan)
    } else {
        None
    }
}

/// The state an accepted liquidation commits: the entire collateral balance
/// moves to the lender, the vault closes empty, and the loan is terminal.
pub open spec fn liquidate_loan_apply(c: LiquidateLoan) -> LiquidateLoan {
    LiquidateLoan {
        loan: Loan { is_active: false, ..c.loan },
        collateral_vault: Vault { amount: 0, ..c.collateral_vault },
        lender_token_account: Wallet {
            amount: (c.lender_token_account.amount + c.collateral_vault.amount) as u64,
            ..c.lender_token_account
        },
        ..c
    }
}

/// Liquidates an eligible loan at time `now`: transfers the entire
/// collateral vault balance to the lender — exactly the recorded collateral
/// amount, with no fee taken — then closes the vault and the loan. Eligible
/// means an armed repayment deadline has passed, or the caller-supplied
/// current LTV exceeds the liquidation threshold. Atomic: on failure nothing
/// moves.
pub fn liquidate_loan_handler(ctx: &mut LiquidateLoan, current_ltv_bps: u64, now: i64) -> (r:
    Result<(), ErrorCode>)
    requires
        old(ctx).wf(),
    ensures
        match r {
            Ok(()) => liquidate_loan_check(*old(ctx), current_ltv_bps, now) is None && *final(ctx)
                == liquidate_loan_apply(*old(ctx)),
            Err(e) => liquidate_loan_check(*old(ctx), current_ltv_bps, now) == Some(e)
                && *final(ctx) == *old(ctx),
        },
        r is Ok ==> final(ctx).lender_token_account.amount == old(ctx).lender_token_account.amount
            + old(ctx).loan.collateral_amount,
        r is Ok ==> final(ctx).collateral_vault.amount == 0 && !final(ctx).loan.is_active,
        r is Ok ==> final(ctx).loan.owns_vault(final(ctx).collateral_vault),
{
    if ctx.lender != ctx.loan.lender {
        return Err(ErrorCode::Unauthorized);
    }
    if !ctx.loan.is_active {
        return Err(ErrorCode::LoanNotActive);
    }
    if !ctx.loan.can_liquidate(now, current_ltv_bps) {
        return Err(ErrorCode::CannotLiquidateHealthyLoan);
    }
    custody::close_vault(&mut ctx.collateral_vault, &mut ctx.lender_token_account);
    ctx.loan.is_active = false;
    proof {
        assert(*ctx =~= liquidate_loan_apply(*old(ctx)));
    }
    Ok(())
}

} // verus!
