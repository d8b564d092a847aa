//! Typed failure reasons for every operation of the market.

use vstd::prelude::*;

verus! {

/// Why an operation was rejected. Every operation either completes with all
/// of its effects or returns one of these with no effect at all.
#[derive(Clone, Copy, Debug, PartialEq, Eq)]
pub enum ErrorCode {
    /// Caller is not the admin, lender or borrower the operation requires.
    Unauthorized,
    /// A fee rate above 10000 basis points was supplied.
    FeeTooHigh,
    /// The fee recipient account does not belong to the configured recipient.
    InvalidFeeRecipient,
    /// The offer has already been consumed or cancelled.
    OfferNotActive,
    /// The loan has already been repaid or liquidated.
    LoanNotActive,
    /// A custody transfer asked for more than the source balance.
    InsufficientFunds,
    /// The asset pair market is not open for new offers.
    MarketNotActive,
    /// An asset does not match the pair the offer or market was created for.
    InvalidAssetPair,
    /// A loan-to-value ratio outside (0, 10000] basis points was supplied.
    InvalidLTV,
    /// The posted collateral is below what the offer's LTV requires.
    InvalidCollateralAmount,
    /// A widened fee or interest computation left the representable range.
    InterestCalculationOverflow,
    /// A zero loan amount was supplied.
    InvalidLoanAmount,
    /// An interest rate above 10000 basis points was supplied.
    InvalidInterestRate,
    /// The loan is neither past a repayment deadline nor above the
    /// liquidation LTV threshold.
    CannotLiquidateHealthyLoan,
}

impl ErrorCode {
    /// The human-readable reason, for surfacing the failure to a caller.
    pub fn message(&self) -> &'static str {
        match self {
            ErrorCode::Unauthorized => "Admin only",
            ErrorCode::FeeTooHigh => "Basis points must be <= 10_000",
            ErrorCode::InvalidFeeRecipient => "Invalid fee recipient",
            ErrorCode::OfferNotActive => "Offer is not active",
            ErrorCode::LoanNotActive => "Loan is not active",
            ErrorCode::InsufficientFunds => "Insufficient funds",
            ErrorCode::MarketNotActive => "Asset pair market is not active",
            ErrorCode::InvalidAssetPair => "Invalid asset pair",
            ErrorCode::InvalidLTV => "Invalid LTV ratio",
            ErrorCode::InvalidCollateralAmount => "Invalid collateral amount",
            ErrorCode::InterestCalculationOverflow => "Interest calculation overflow",
            ErrorCode::InvalidLoanAmount => "Invalid loan amount",
            ErrorCode::InvalidInterestRate => "Invalid interest rate",
            ErrorCode::CannotLiquidateHealthyLoan => "Cannot liquidate - LTV is healthy",
        }
    }
}

} // verus!
