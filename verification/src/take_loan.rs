//! Loan origination: a borrower consumes exactly one active offer, posting
//! collateral sized by the offer's LTV and drawing the offered amount minus
//! the borrower fee, which goes to the protocol's fee recipient.

use vstd::prelude::*;

use crate::custody;
use crate::custody::Vault;
use crate::custody::Wallet;
use crate::error::ErrorCode;
use crate::math;
use crate::math::fee_of;
use crate::math::required_collateral_of;
use crate::state::AssetPairMarket;
use crate::state::LendingMarket;
use crate::state::LendingOffer;
use crate::state::Loan;
use crate::BPS_DENOMINATOR;

verus! {

/// The entities a take-loan request names: the borrower, the market
/// configuration, the pair, the offer with its escrow, the borrower's two
/// wallets, and the fee recipient's wallet of the loan asset.
#[derive(Clone, Copy, Debug, PartialEq, Eq)]
#[verifier::ext_equal]
pub struct TakeLoan {
    /// The borrower signing the request.
    pub borrower: u64,
    /// The singleton market configuration.
    pub lending_market: LendingMarket,
    /// The pair the offer was posted against.
    pub asset_pair_market: AssetPairMarket,
    /// The offer being consumed.
    pub lending_offer: LendingOffer,
    /// The escrow the offer owns.
    pub escrow: Vault,
    /// The borrower's wallet of the loan asset, credited with the draw.
    pub borrower_loan_token_account: Wallet,
    /// The borrower's wallet of the collateral asset, debited the collateral.
    pub borrower_collateral_token_account: Wallet,
    /// The fee recipient's wallet of the loan asset.
    pub fee_recipient_token_account: Wallet,
}

impl TakeLoan {
    /// Validated ranges and escrow ownership hold, the borrower's wallets
    /// belong to the signing borrower, the fee wallet holds the loan asset,
    /// and crediting the full offered amount cannot overflow a recipient.
    pub open spec fn wf(self) -> bool {
        &&& self.lending_market.wf()
        &&& self.lending_offer.wf()
        &&& self.lending_offer.owns_escrow(self.escrow)
        &&& self.borrower_loan_token_account.owner == self.borrower
        &&& self.borrower_collateral_token_account.owner == self.borrower
        &&& self.fee_recipient_token_account.mint == self.lending_offer.loan_mint
        &&& self.borrower_loan_token_account.amount + self.lending_offer.loan_amount <= u64::MAX
        &&& self.fee_recipient_token_account.amount + self.lending_offer.loan_amount <= u64::MAX
    }
}

/// The exact failure a take-loan request is rejected with, or `None` when it
/// is accepted.
pub open spec fn take_loan_check(c: TakeLoan, collateral_amount: u64) -> Option<ErrorCode> {
    if c.asset_pair_market.loan_mint != c.borrower_loan_token_account.mint {
        Some(ErrorCode::InvalidAssetPair)
    } else if c.asset_pair_market.collateral_mint != c.borrower_collateral_token_account.mint {
        Some(ErrorCode::InvalidAssetPair)
    } else if c.lending_offer.loan_mint != c.asset_pair_market.loan_mint
        || c.lending_offer.collateral_mint != c.asset_pair_market.collateral_mint {
        Some(ErrorCode::InvalidAssetPair)
    } else if !c.lending_offer.is_active {
        Some(ErrorCode::OfferNotActive)
    } else if c.fee_recipient_token_account.owner != c.lending_market.fee_recipient {
        Some(ErrorCode::InvalidFeeRecipient)
    } else if collateral_amount < required_collateral_of(
        c.lending_offer.loan_amount,
        c.lending_offer.ltv_bps,
    ) {
        Some(ErrorCode::InvalidCollateralAmount)
    } else if c.lending_offer.loan_amount * c.lending_market.borrower_fee_bps > u64::MAX {
        Some(ErrorCode::InterestCalculationOverflow)
    } else if c.borrower_collateral_token_account.amount < collateral_amount {
        Some(ErrorCode::InsufficientFunds)
    } else {
        None
    }
}

/// The state an accepted take-loan request commits: collateral moves into a
/// fresh vault owned by the new loan, the escrow is disbursed in full (the
/// draw to the borrower, the fee to the fee recipient), the offer becomes
/// terminal but is retained, and the loan starts at `now` with the offer's
/// terms snapshotted.
pub open spec fn take_loan_apply(c: TakeLoan, collateral_amount: u64, now: i64) -> (
    TakeLoan,
    Loan,
    Vault,
) {
    let fee = fee_of(c.lending_offer.loan_amount, c.lending_market.borrower_fee_bps);
    let receives = c.lending_offer.loan_amount - fee;
    let loan = Loan {
        offer_id: c.lending_offer.offer_id,
        lender: c.lending_offer.lender,
        borrower: c.borrower,
        principal_amount: c.lending_offer.loan_amount,
        collateral_amount,
        interest_rate_bps: c.lending_offer.interest_rate_bps,
        ltv_bps: c.lending_offer.ltv_bps,
        loan_start_time: now,
        last_interest_update: now,
        repayment_deadline: None,
        is_active: true,
    };
    let collateral_vault = Vault {
        mint: c.asset_pair_market.collateral_mint,
        amount: collateral_amount,
    };
    let after = TakeLoan {
        lending_offer: LendingOffer { is_active: false, ..c.lending_offer },
        escrow: Vault { amount: 0, ..c.escrow },
        borrower_loan_token_account: Wallet {
            amount: (c.borrower_loan_token_account.amount + receives) as u64,
            ..c.borrower_loan_token_account
        },
        borrower_collateral_token_account: Wallet {
            amount: (c.borrower_collateral_token_account.amount - collateral_amount) as u64,
            ..c.borrower_collateral_token_account
        },
        fee_recipient_token_account: Wallet {
            amount: (c.fee_recipient_token_account.amount + fee) as u64,
            ..c.fee_recipient_token_account
        },
        ..c
    };
    (after, loan, collateral_vault)
}

/// Consumes an active offer to originate a loan. Validates the assets and
/// the posted collateral against the offer's LTV, then atomically: deposits
/// the collateral into a fresh vault owned by the new loan, disburses the
/// entire escrow (the offered amount minus the borrower fee to the borrower,
/// the fee to the fee recipient), marks the offer consumed, and creates the
/// loan with the offer's terms snapshotted. On failure nothing moves.
pub fn take_loan_handler(ctx: &mut TakeLoan, collateral_amount: u64, now: i64) -> (r: Result<
    (Loan, Vault),
    ErrorCode,
>)
    requires
        old(ctx).wf(),
    ensures
        match r {
            Ok(created) => {
                let post = take_loan_apply(*old(ctx), collateral_amount, now);
                take_loan_check(*old(ctx), collateral_amount) is None && *final(ctx) == post.0
                    && created.0 == post.1 && created.1 == post.2
            },
            Err(e) => take_loan_check(*old(ctx), collateral_amount) == Some(e) && *final(ctx)
                == *old(ctx),
        },
        r matches Ok(created) ==> created.0.wf() && created.0.owns_vault(created.1)
            && created.0.is_active,
        r is Ok ==> !final(ctx).lending_offer.is_active && final(ctx).escrow.amount == 0,
        r is Ok ==> final(ctx).lending_offer.owns_escrow(final(ctx).escrow),
{
    if ctx.asset_pair_market.loan_mint != ctx.borrower_loan_token_account.mint {
        return Err(ErrorCode::InvalidAssetPair);
    }
    if ctx.asset_pair_market.collateral_mint != ctx.borrower_collateral_token_account.mint {
        return Err(ErrorCode::InvalidAssetPair);
    }
    if ctx.lending_offer.loan_mint != ctx.asset_pair_market.loan_mint
        || ctx.lending_offer.collateral_mint != ctx.asset_pair_market.collateral_mint {
        return Err(ErrorCode::InvalidAssetPair);
    }
    if !ctx.lending_offer.is_active {
        return Err(ErrorCode::OfferNotActive);
    }
    if ctx.fee_recipient_token_account.owner != ctx.lending_market.fee_recipient {
        return Err(ErrorCode::InvalidFeeRecipient);
    }
    let loan_amount: u64 = ctx.lending_offer.loan_amount;
    proof {
        vstd::arithmetic::mul::lemma_mul_upper_bound(
            loan_amount as int,
            u64::MAX as int,
            BPS_DENOMINATOR as int,
            BPS_DENOMINATOR as int,
        );
    }
    let required_wide: u128 = (loan_amount as u128) * (BPS_DENOMINATOR as u128) / (
    ctx.lending_offer.ltv_bps as u128);
    if (collateral_amount as u128) < required_wide {
        return Err(ErrorCode::InvalidCollateralAmount);
    }
    let borrower_fee = match math::calculate_fee(loan_amount, ctx.lending_market.borrower_fee_bps) {
        Ok(fee) => fee,
        Err(e) => {
            return Err(e);
        },
    };
    proof {
        math::lemma_fee_le_amount(loan_amount, ctx.lending_market.borrower_fee_bps);
    }
    let borrower_receives: u64 = loan_amount - borrower_fee;
    let mut collateral_vault = Vault { mint: ctx.asset_pair_market.collateral_mint, amount: 0 };
    match custody::deposit(
        &mut ctx.borrower_collateral_token_account,
        &mut collateral_vault,
        collateral_amount,
    ) {
        Ok(()) => {},
        Err(e) => {
            proof {
                assert(*ctx =~= *old(ctx));
            }
            return Err(e);
        },
    }
    match custody::release(&mut ctx.escrow, &mut ctx.borrower_loan_token_account, borrower_receives) {
        Ok(()) => {},
        Err(e) => {
            proof {
                assert(false);
            }
            return Err(e);
        },
    }
    match custody::release(&mut ctx.escrow, &mut ctx.fee_recipient_token_account, borrower_fee) {
        Ok(()) => {},
        Err(e) => {
            proof {
                assert(false);
            }
            return Err(e);
        },
    }
    ctx.lending_offer.is_active = false;
    let loan = Loan {
        offer_id: ctx.lending_offer.offer_id,
        lender: ctx.lending_offer.lender,
        borrower: ctx.borrower,
        principal_amount: loan_amount,
        collateral_amount,
        interest_rate_bps: ctx.lending_offer.interest_rate_bps,
        ltv_bps: ctx.lending_offer.ltv_bps,
        loan_start_time: now,
        last_interest_update: now,
        repayment_deadline: None,
        is_active: true,
    };
    proof {
        let post = take_loan_apply(*old(ctx), collateral_amount, now);
        assert(*ctx =~= post.0);
        assert(collateral_vault =~= post.2);
        assert(loan =~= post.1);
    }
    Ok((loan, collateral_vault))
}

} // verus!
