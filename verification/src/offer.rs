//! The offer book: posting a lending offer (locking the offered amount into
//! a fresh escrow) and cancelling one (refunding the escrow to the lender).
//!
//! Each operation is specified by a `check` function giving the exact
//! failure, if any, for a request, and an `apply` function giving the exact
//! state it commits on success; the handlers are proved to follow both, and
//! to leave every entity untouched on failure.

use vstd::prelude::*;

use crate::custody;
use crate::custody::Vault;
use crate::custody::Wallet;
use crate::error::ErrorCode;
use crate::state::AssetPairMarket;
use crate::state::LendingOffer;
use crate::BPS_DENOMINATOR;

verus! {

/// The entities a create-offer request names: the posting lender, the pair
/// the offer is for, and the lender's wallet of the loan asset.
#[derive(Clone, Copy, Debug, PartialEq, Eq)]
#[verifier::ext_equal]
pub struct CreateLendingOffer {
    /// The lender signing the request.
    pub lender: u64,
    /// The pair the offer is posted against.
    pub asset_pair_market: AssetPairMarket,
    /// The lender's wallet the offered amount is escrowed from.
    pub lender_token_account: Wallet,
}

impl CreateLendingOffer {
    /// The wallet offered for escrow belongs to the signing lender; the host
    /// admits only requests that satisfy this.
    pub open spec fn wf(self) -> bool {
        self.lender_token_account.owner == self.lender
    }
}

/// The exact failure a create-offer request is rejected with, or `None` when
/// it is accepted.
pub open spec fn create_lending_offer_check(
    c: CreateLendingOffer,
    loan_amount: u64,
    interest_rate_bps: u64,
    ltv_bps: u64,
) -> Option<ErrorCode> {
    if !c.asset_pair_market.is_active {
        Some(ErrorCode::MarketNotActive)
    } else if c.asset_pair_market.loan_mint != c.lender_token_account.mint {
        Some(ErrorCode::InvalidAssetPair)
    } else if loan_amount == 0 {
        Some(ErrorCode::InvalidLoanAmount)
    } else if interest_rate_bps > BPS_DENOMINATOR {
        Some(ErrorCode::InvalidInterestRate)
    } else if ltv_bps == 0 || ltv_bps > BPS_DENOMINATOR {
        Some(ErrorCode::InvalidLTV)
    } else if c.lender_token_account.amount < loan_amount {
        Some(ErrorCode::InsufficientFunds)
    } else {
        None
    }
}

/// The state an accepted create-offer request commits: the lender's wallet
/// less the escrowed amount, the new active offer, and its escrow holding
/// exactly the offered amount.
pub open spec fn create_lending_offer_apply(
    c: CreateLendingOffer,
    offer_id: u64,
    loan_amount: u64,
    interest_rate_bps: u64,
    ltv_bps: u64,
    now: i64,
) -> (CreateLendingOffer, LendingOffer, Vault) {
    let offer = LendingOffer {
        lender: c.lender,
        loan_mint: c.asset_pair_market.loan_mint,
        collateral_mint: c.asset_pair_market.collateral_mint,
        loan_amount,
        interest_rate_bps,
        ltv_bps,
        offer_id,
        is_active: true,
        created_at: now,
    };
    let escrow = Vault { mint: c.asset_pair_market.loan_mint, amount: loan_amount };
    let after = CreateLendingOffer {
        lender_token_account: Wallet {
            amount: (c.lender_token_account.amount - loan_amount) as u64,
            ..c.lender_token_account
        },
        ..c
    };
    (after, offer, escrow)
}

/// Posts a lending offer: validates the pair, the deposited asset and the
/// offered terms, then moves `loan_amount` from the lender's wallet into a
/// fresh escrow owned by the new offer. Atomic: on failure nothing moves.
pub fn create_lending_offer_handler(
    ctx: &mut CreateLendingOffer,
    offer_id: u64,
    loan_amount: u64,
    interest_rate_bps: u64,
    ltv_bps: u64,
    now: i64,
) -> (r: Result<(LendingOffer, Vault), ErrorCode>)
    requires
        old(ctx).wf(),
    ensures
        match r {
            Ok(created) => {
                let post = create_lending_offer_apply(
                    *old(ctx),
                    offer_id,
                    loan_amount,
                    interest_rate_bps,
                    ltv_bps,
                    now,
                );
                create_lending_offer_check(*old(ctx), loan_amount, interest_rate_bps, ltv_bps)
                    is None && *final(ctx) == post.0 && created.0 == post.1 && created.1 == post.2
            },
            Err(e) => create_lending_offer_check(*old(ctx), loan_amount, interest_rate_bps, ltv_bps)
                == Some(e) && *final(ctx) == *old(ctx),
        },
        r matches Ok(created) ==> created.0.wf() && created.0.owns_escrow(created.1)
            && created.0.is_active,
{
    if !ctx.asset_pair_market.is_active {
        return Err(ErrorCode::MarketNotActive);
    }
    if ctx.asset_pair_market.loan_mint != ctx.lender_token_account.mint {
        return Err(ErrorCode::InvalidAssetPair);
    }
    if loan_amount == 0 {
        return Err(ErrorCode::InvalidLoanAmount);
    }
    if interest_rate_bps > BPS_DENOMINATOR {
        return Err(ErrorCode::InvalidInterestRate);
    }
    if ltv_bps == 0 || ltv_bps > BPS_DENOMINATOR {
        return Err(ErrorCode::InvalidLTV);
    }
    let mut escrow = Vault { mint: ctx.asset_pair_market.loan_mint, amount: 0 };
    match custody::deposit(&mut ctx.lender_token_account, &mut escrow, loan_amount) {
        Ok(()) => {},
        Err(e) => {
            proof {
                assert(*ctx =~= *old(ctx));
            }
            return Err(e);
        },
    }
    let offer = LendingOffer {
        lender: ctx.lender,
        loan_mint: ctx.asset_pair_market.loan_mint,
        collateral_mint: ctx.asset_pair_market.collateral_mint,
        loan_amount,
        interest_rate_bps,
        ltv_bps,
        offer_id,
        is_active: true,
        created_at: now,
    };
    proof {
        let post = create_lending_offer_apply(
            *old(ctx),
            offer_id,
            loan_amount,
            interest_rate_bps,
            ltv_bps,
            now,
        );
        assert(*ctx =~= post.0);
        assert(escrow =~= post.2);
    }
    Ok((offer, escrow))
}

/// The entities a cancel request names: the cancelling lender, the offer,
/// its escrow, and the lender's wallet the escrow is refunded to.
#[derive(Clone, Copy, Debug, PartialEq, Eq)]
#[verifier::ext_equal]
pub struct CancelLendingOffer {
    /// The lender signing the request.
    pub lender: u64,
    /// The offer to cancel.
    pub lending_offer: LendingOffer,
    /// The escrow the offer owns.
    pub escrow: Vault,
    /// The lender's wallet of the loan asset.
    pub lender_token_account: Wallet,
}

impl CancelLendingOffer {
    /// The offer's validated ranges and escrow ownership hold, the refund
    /// wallet is the signing lender's wallet of the loan asset, and the
    /// refund cannot overflow it.
    pub open spec fn wf(self) -> bool {
        &&& self.lending_offer.wf()
        &&& self.lending_offer.owns_escrow(self.escrow)
        &&& self.lender_token_account.mint == self.lending_offer.loan_mint
        &&& self.lender_token_account.owner == self.lender
        &&& self.lender_token_account.amount + self.escrow.amount <= u64::MAX
    }
}

/// The exact failure a cancel request is rejected with, or `None` when it is
/// accepted.
pub open spec fn cancel_lending_offer_check(c: CancelLendingOffer) -> Option<ErrorCode> {
    if c.lender != c.lending_offer.lender {
        Some(ErrorCode::Unauthorized)
    } else if !c.lending_offer.is_active {
        Some(ErrorCode::OfferNotActive)
    } else {
        None
    }
}

/// The state an accepted cancel request commits: the entire escrow balance
/// refunded to the lender, the escrow closed empty, and the offer terminal.
pub open spec fn cancel_lending_offer_apply(c: CancelLendingOffer) -> CancelLendingOffer {
    CancelLendingOffer {
        lending_offer: LendingOffer { is_active: false, ..c.lending_offer },
        escrow: Vault { amount: 0, ..c.escrow },
        lender_token_account: Wallet {
            amount: (c.lender_token_account.amount + c.escrow.amount) as u64,
            ..c.lender_token_account
        },
        ..c
    }
}

/// Cancels an active offer: transfers the entire escrow balance back to the
/// lender, closes the escrow, and makes the offer terminal. Since an active
/// offer's escrow holds exactly its loan amount, the lender is refunded
/// exactly `loan_amount`. Atomic: on failure nothing moves.
pub fn cancel_lending_offer_handler(ctx: &mut CancelLendingOffer) -> (r: Result<(), ErrorCode>)
    requires
        old(ctx).wf(),
    ensures
        match r {
            Ok(()) => cancel_lending_offer_check(*old(ctx)) is None && *final(ctx)
                == cancel_lending_offer_apply(*old(ctx)),
            Err(e) => cancel_lending_offer_check(*old(ctx)) == Some(e) && *final(ctx) == *old(ctx),
        },
        r is Ok ==> final(ctx).lender_token_account.amount == old(ctx).lender_token_account.amount
            + old(ctx).lending_offer.loan_amount,
        r is Ok ==> final(ctx).escrow.amount == 0 && !final(ctx).lending_offer.is_active,
        r is Ok ==> final(ctx).lending_offer.owns_escrow(final(ctx).escrow),
{
    if ctx.lender != ctx.lending_offer.lender {
        return Err(ErrorCode::Unauthorized);
    }
    if !ctx.lending_offer.is_active {
        return Err(ErrorCode::OfferNotActive);
    }
    custody::close_vault(&mut ctx.escrow, &mut ctx.lender_token_account);
    ctx.lending_offer.is_active = false;
    proof {
        assert(*ctx =~= cancel_lending_offer_apply(*old(ctx)));
    }
    Ok(())
}

} // verus!
