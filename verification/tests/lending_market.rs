//! The end-to-end flows of the market: initialisation, pair registration,
//! the offer round trip, the full lending flow with both fees, and the
//! repayment-request / liquidation path.

use lending_market::custody::Vault;
use lending_market::custody::Wallet;
use lending_market::liquidate::liquidate_loan_handler;
use lending_market::liquidate::LiquidateLoan;
use lending_market::market::create_asset_pair_market_handler;
use lending_market::market::init_lending_market_handler;
use lending_market::offer::cancel_lending_offer_handler;
use lending_market::offer::create_lending_offer_handler;
use lending_market::offer::CancelLendingOffer;
use lending_market::offer::CreateLendingOffer;
use lending_market::repay::repay_loan_handler;
use lending_market::repay::request_repayment_handler;
use lending_market::repay::RepayLoan;
use lending_market::repay::RequestRepayment;
use lending_market::state::AssetPairMarket;
use lending_market::state::LendingMarket;
use lending_market::state::LendingOffer;
use lending_market::take_loan::take_loan_handler;
use lending_market::take_loan::TakeLoan;

const ADMIN: u64 = 1;
const FEE_RECIPIENT: u64 = 2;
const LENDER: u64 = 3;
const BORROWER: u64 = 4;
const LOAN_MINT: u64 = 10;
const COLLATERAL_MINT: u64 = 11;

fn setup_market() -> LendingMarket {
    init_lending_market_handler(ADMIN, FEE_RECIPIENT, 200, 100)
        .expect("Market initialization should succeed")
}

fn setup_pair(market: &LendingMarket) -> AssetPairMarket {
    create_asset_pair_market_handler(market, ADMIN, LOAN_MINT, COLLATERAL_MINT)
        .expect("Asset pair market creation should succeed")
}

fn setup_offer(
    pair: AssetPairMarket,
    loan_amount: u64,
) -> (CreateLendingOffer, LendingOffer, Vault) {
    let mut create = CreateLendingOffer {
        lender: LENDER,
        asset_pair_market: pair,
        lender_token_account: Wallet { owner: LENDER, mint: LOAN_MINT, amount: loan_amount },
    };
    let (offer, escrow) = create_lending_offer_handler(&mut create, 1, loan_amount, 1000, 8000, 0)
        .expect("Lending offer creation should succeed");
    (create, offer, escrow)
}

#[test]
fn test_init_lending_market() {
    let lender_fee_bps: u64 = 200; // 2% lender fee
    let borrower_fee_bps: u64 = 100; // 1% borrower fee

    let result = init_lending_market_handler(ADMIN, FEE_RECIPIENT, lender_fee_bps, borrower_fee_bps);

    let market = result.expect("Lending market account should exist");
    assert_eq!(market.admin, ADMIN);
    assert_eq!(market.fee_recipient, FEE_RECIPIENT);
    assert_eq!(market.lender_fee_bps, lender_fee_bps);
    assert_eq!(market.borrower_fee_bps, borrower_fee_bps);
}

#[test]
fn test_create_asset_pair_market() {
    let market = setup_market();

    let result = create_asset_pair_market_handler(&market, ADMIN, LOAN_MINT, COLLATERAL_MINT);

    let pair = result.expect("Asset pair market account should exist");
    assert_eq!(pair.loan_mint, LOAN_MINT);
    assert_eq!(pair.collateral_mint, COLLATERAL_MINT);
    assert!(pair.is_active);
}

#[test]
fn test_create_and_cancel_lending_offer() {
    let market = setup_market();
    let pair = setup_pair(&market);
    let loan_amount: u64 = 1_000_000_000; // 1000 USDC at 6 decimals

    let (create, offer, escrow) = setup_offer(pair, loan_amount);
    assert!(offer.is_active, "Lending offer account should exist");
    assert_eq!(
        create.lender_token_account.amount, 0,
        "Lender's tokens should be in escrow"
    );
    assert_eq!(escrow.amount, loan_amount);

    let mut cancel = CancelLendingOffer {
        lender: LENDER,
        lending_offer: offer,
        escrow,
        lender_token_account: create.lender_token_account,
    };
    cancel_lending_offer_handler(&mut cancel).expect("Cancel lending offer should succeed");

    assert_eq!(
        cancel.lender_token_account.amount, loan_amount,
        "Lender should receive tokens back"
    );
    assert_eq!(cancel.escrow.amount, 0);
    assert!(!cancel.lending_offer.is_active);
}

#[test]
fn test_full_lending_flow_with_fees() {
    let market = setup_market();
    let pair = setup_pair(&market);
    let loan_amount: u64 = 1_000_000_000; // 1000 USDC
    let collateral_amount: u64 = 1_250_000_000_000; // 1.25 SOL at 9 decimals, for 80% LTV

    let (_, offer, escrow) = setup_offer(pair, loan_amount);

    // The borrower holds extra loan tokens for the repayment with interest.
    let mut take = TakeLoan {
        borrower: BORROWER,
        lending_market: market,
        asset_pair_market: pair,
        lending_offer: offer,
        escrow,
        borrower_loan_token_account: Wallet {
            owner: BORROWER,
            mint: LOAN_MINT,
            amount: loan_amount * 2,
        },
        borrower_collateral_token_account: Wallet {
            owner: BORROWER,
            mint: COLLATERAL_MINT,
            amount: collateral_amount,
        },
        fee_recipient_token_account: Wallet { owner: FEE_RECIPIENT, mint: LOAN_MINT, amount: 0 },
    };
    let borrower_loan_balance_before = take.borrower_loan_token_account.amount;
    let fee_recipient_balance_before = take.fee_recipient_token_account.amount;

    let (loan, collateral_vault) =
        take_loan_handler(&mut take, collateral_amount, 0).expect("Take loan should succeed");

    let expected_borrower_amount = loan_amount * 99 / 100; // 99% of loan
    let expected_fee = loan_amount / 100; // 1% fee
    assert_eq!(
        take.borrower_loan_token_account.amount - borrower_loan_balance_before,
        expected_borrower_amount,
        "Borrower should receive 99% of loan amount"
    );
    assert_eq!(
        take.fee_recipient_token_account.amount - fee_recipient_balance_before,
        expected_fee,
        "Fee recipient should receive 1% borrower fee"
    );
    assert_eq!(take.escrow.amount, 0);
    assert!(!take.lending_offer.is_active);
    assert_eq!(collateral_vault.amount, collateral_amount);

    // Repay 73 days later: 10% APR over 73/365 of a year is 2% interest.
    let mut repay = RepayLoan {
        borrower: BORROWER,
        lending_market: market,
        loan,
        collateral_vault,
        borrower_loan_token_account: take.borrower_loan_token_account,
        borrower_collateral_token_account: take.borrower_collateral_token_account,
        lender_token_account: Wallet { owner: LENDER, mint: LOAN_MINT, amount: 0 },
        fee_recipient_token_account: take.fee_recipient_token_account,
    };
    let borrower_collateral_before_repay = repay.borrower_collateral_token_account.amount;

    repay_loan_handler(&mut repay, 73 * 86400).expect("Repay loan should succeed");

    assert_eq!(
        repay.borrower_collateral_token_account.amount - borrower_collateral_before_repay,
        collateral_amount,
        "Borrower should receive full collateral back"
    );
    assert_eq!(repay.collateral_vault.amount, 0);
    assert!(!repay.loan.is_active);
}

#[test]
fn test_request_repayment_and_liquidation() {
    let market = setup_market();
    let pair = setup_pair(&market);
    let loan_amount: u64 = 1_000_000_000;
    let collateral_amount: u64 = 1_250_000_000_000;

    let (_, offer, escrow) = setup_offer(pair, loan_amount);

    let mut take = TakeLoan {
        borrower: BORROWER,
        lending_market: market,
        asset_pair_market: pair,
        lending_offer: offer,
        escrow,
        borrower_loan_token_account: Wallet { owner: BORROWER, mint: LOAN_MINT, amount: 0 },
        borrower_collateral_token_account: Wallet {
            owner: BORROWER,
            mint: COLLATERAL_MINT,
            amount: collateral_amount,
        },
        fee_recipient_token_account: Wallet { owner: FEE_RECIPIENT, mint: LOAN_MINT, amount: 0 },
    };
    let (loan, collateral_vault) =
        take_loan_handler(&mut take, collateral_amount, 0).expect("Take loan should succeed");

    let mut request = RequestRepayment { lender: LENDER, loan };
    request_repayment_handler(&mut request, 0).expect("Request repayment should succeed");
    assert_eq!(request.loan.repayment_deadline, Some(172800));

    // Current LTV of 121% is above the 120% threshold.
    let mut liquidate = LiquidateLoan {
        lender: LENDER,
        loan: request.loan,
        collateral_vault,
        lender_token_account: Wallet { owner: LENDER, mint: COLLATERAL_MINT, amount: 0 },
    };
    let lender_collateral_before = liquidate.lender_token_account.amount;

    liquidate_loan_handler(&mut liquidate, 12100, 0).expect("Liquidation should succeed");

    assert_eq!(
        liquidate.lender_token_account.amount - lender_collateral_before,
        collateral_amount,
        "Lender should receive full collateral"
    );
    assert_eq!(liquidate.collateral_vault.amount, 0);
    assert!(!liquidate.loan.is_active);
}
