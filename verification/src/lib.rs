//! A peer-to-peer collateralized lending market.
//!
//! Lenders post offers that lock the offered loan amount into an escrow,
//! borrowers consume an offer by posting collateral sized by the offer's
//! loan-to-value ratio, simple interest accrues per whole elapsed day, and
//! overdue or unhealthy loans can be liquidated by the lender. Every state
//! transition is a verified function over plain values: identities are
//! opaque `u64` ids, timestamps are `i64` seconds, and custody (escrows,
//! collateral vaults, party wallets) is modelled as explicit records.

use vstd::prelude::*;

pub mod custody;
pub mod error;
pub mod laws;
pub mod liquidate;
pub mod market;
pub mod math;
pub mod offer;
pub mod repay;
pub mod state;
pub mod take_loan;

verus! {

/// Basis-point denominator: 10000 bps = 100%.
pub const BPS_DENOMINATOR: u64 = 10000;

/// Length of the interest year, in days.
pub const DAYS_PER_YEAR: u64 = 365;

/// Seconds per whole interest day.
pub const SECONDS_PER_DAY: i64 = 86400;

/// Length of the repayment notice a lender must give, in seconds (48 hours).
pub const REPAYMENT_NOTICE_DURATION: i64 = 172800;

/// Loan-to-value ratio, in basis points, above which a loan is unhealthy
/// and may be liquidated regardless of any repayment deadline.
pub const LIQUIDATION_THRESHOLD_BPS: u64 = 12000;

} // verus!
