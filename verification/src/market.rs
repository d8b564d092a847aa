//! The market and asset-pair registries: one-time admin configuration.

use vstd::prelude::*;

use crate::error::ErrorCode;
use crate::state::AssetPairMarket;
use crate::state::LendingMarket;
use crate::BPS_DENOMINATOR;

verus! {

/// Why initialising the market with these rates fails, or `None` when it is
/// accepted.
pub open spec fn init_lending_market_check(lender_fee_bps: u64, borrower_fee_bps: u64) -> Option<
    ErrorCode,
> {
    if lender_fee_bps > BPS_DENOMINATOR {
        Some(ErrorCode::FeeTooHigh)
    } else if borrower_fee_bps > BPS_DENOMINATOR {
        Some(ErrorCode::FeeTooHigh)
    } else {
        None
    }
}

/// Creates the singleton market configuration. Fails with `FeeTooHigh` if
/// either fee rate exceeds 10000 basis points; there is no update operation,
/// so the rates are fixed for the deployment's lifetime.
pub fn init_lending_market_handler(
    admin: u64,
    fee_recipient: u64,
    lender_fee_bps: u64,
    borrower_fee_bps: u64,
) -> (r: Result<LendingMarket, ErrorCode>)
    ensures
        match r {
            Ok(market) => init_lending_market_check(lender_fee_bps, borrower_fee_bps) is None
                && market == (LendingMarket { admin, fee_recipient, lender_fee_bps, borrower_fee_bps }),
            Err(e) => init_lending_market_check(lender_fee_bps, borrower_fee_bps) == Some(e),
        },
        r matches Ok(market) ==> market.wf(),
{
    if lender_fee_bps > BPS_DENOMINATOR {
        return Err(ErrorCode::FeeTooHigh);
    }
    if borrower_fee_bps > BPS_DENOMINATOR {
        return Err(ErrorCode::FeeTooHigh);
    }
    Ok(LendingMarket { admin, fee_recipient, lender_fee_bps, borrower_fee_bps })
}

/// Why creating an asset pair fails, or `None` when it is accepted.
pub open spec fn create_asset_pair_market_check(market: LendingMarket, caller: u64) -> Option<
    ErrorCode,
> {
    if caller != market.admin {
        Some(ErrorCode::Unauthorized)
    } else {
        None
    }
}

/// Registers the (loan asset, collateral asset) pair, open for offers.
/// Admin-only; activation is one-way, there is no deactivation operation.
pub fn create_asset_pair_market_handler(
    market: &LendingMarket,
    caller: u64,
    loan_mint: u64,
    collateral_mint: u64,
) -> (r: Result<AssetPairMarket, ErrorCode>)
    ensures
        match r {
            Ok(pair) => create_asset_pair_market_check(*market, caller) is None && pair == (
                AssetPairMarket { loan_mint, collateral_mint, is_active: true }
            ),
            Err(e) => create_asset_pair_market_check(*market, caller) == Some(e),
        },
{
    if caller != market.admin {
        return Err(ErrorCode::Unauthorized);
    }
    Ok(AssetPairMarket { loan_mint, collateral_mint, is_active: true })
}

} // verus!
