//! The custody model: party wallets and protocol-owned vaults.
//!
//! Each offer owns an escrow vault holding the not-yet-disbursed loan
//! amount; each loan owns a collateral vault holding the borrower's posted
//! collateral. A vault is controlled exclusively by the record that owns it,
//! so ownership never appears on the vault itself; a wallet belongs to a
//! party. Every movement of value either happens in full or fails with
//! `InsufficientFunds` and no effect.

use vstd::prelude::*;

use crate::error::ErrorCode;

verus! {

/// A party's holdings of one asset.
#[derive(Clone, Copy, Debug, PartialEq, Eq)]
#[verifier::ext_equal]
pub struct Wallet {
    /// The party the holdings belong to.
    pub owner: u64,
    /// The asset held.
    pub mint: u64,
    /// The balance held.
    pub amount: u64,
}

/// A value-holding record owned by exactly one offer or loan.
#[derive(Clone, Copy, Debug, PartialEq, Eq)]
#[verifier::ext_equal]
pub struct Vault {
    /// The asset held.
    pub mint: u64,
    /// The balance held.
    pub amount: u64,
}

/// Moves `amount` from one wallet to another of the same asset.
pub fn pay(from: &mut Wallet, to: &mut Wallet, amount: u64) -> (r: Result<(), ErrorCode>)
    requires
        old(from).mint == old(to).mint,
        old(to).amount + amount <= u64::MAX,
    ensures
        r is Ok <==> old(from).amount >= amount,
        r is Ok ==> *final(from) == (Wallet { amount: (old(from).amount - amount) as u64, ..*old(from) })
            && *final(to) == (Wallet { amount: (old(to).amount + amount) as u64, ..*old(to) }),
        r matches Err(e) ==> e == ErrorCode::InsufficientFunds && *final(from) == *old(from)
            && *final(to) == *old(to),
{
    if from.amount < amount {
        return Err(ErrorCode::InsufficientFunds);
    }
    from.amount = from.amount - amount;
    to.amount = to.amount + amount;
    Ok(())
}

/// Deposits `amount` from a wallet into a vault of the same asset.
pub fn deposit(from: &mut Wallet, to: &mut Vault, amount: u64) -> (r: Result<(), ErrorCode>)
    requires
        old(from).mint == old(to).mint,
        old(to).amount + amount <= u64::MAX,
    ensures
        r is Ok <==> old(from).amount >= amount,
        r is Ok ==> *final(from) == (Wallet { amount: (old(from).amount - amount) as u64, ..*old(from) })
            && *final(to) == (Vault { amount: (old(to).amount + amount) as u64, ..*old(to) }),
        r matches Err(e) ==> e == ErrorCode::InsufficientFunds && *final(from) == *old(from)
            && *final(to) == *old(to),
{
    if from.amount < amount {
        return Err(ErrorCode::InsufficientFunds);
    }
    from.amount = from.amount - amount;
    to.amount = to.amount + amount;
    Ok(())
}

/// Releases `amount` from a vault to a wallet of the same asset.
pub fn release(from: &mut Vault, to: &mut Wallet, amount: u64) -> (r: Result<(), ErrorCode>)
    requires
        old(from).mint == old(to).mint,
        old(to).amount + amount <= u64::MAX,
    ensures
        r is Ok <==> old(from).amount >= amount,
        r is Ok ==> *final(from) == (Vault { amount: (old(from).amount - amount) as u64, ..*old(from) })
            && *final(to) == (Wallet { amount: (old(to).amount + amount) as u64, ..*old(to) }),
        r matches Err(e) ==> e == ErrorCode::InsufficientFunds && *final(from) == *old(from)
            && *final(to) == *old(to),
{
    if from.amount < amount {
        return Err(ErrorCode::InsufficientFunds);
    }
    from.amount = from.amount - amount;
    to.amount = to.amount + amount;
    Ok(())
}

/// Closes a vault: refunds its entire residual balance to `refund_to`,
/// leaving the vault empty. Cannot fail.
pub fn close_vault(vault: &mut Vault, refund_to: &mut Wallet)
    requires
        old(vault).mint == old(refund_to).mint,
        old(refund_to).amount + old(vault).amount <= u64::MAX,
    ensures
        *final(vault) == (Vault { amount: 0, ..*old(vault) }),
        *final(refund_to) == (Wallet {
            amount: (old(refund_to).amount + old(vault).amount) as u64,
            ..*old(refund_to)
        }),
{
    refund_to.amount = refund_to.amount + vault.amount;
    vault.amount = 0;
}

} // verus!
