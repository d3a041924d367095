//! Asset transfer primitive: moves a fungible balance between ledger-tracked
//! accounts under an authenticated authority. Success debits the source and
//! credits the destination by exactly the requested amount; there are no
//! partial transfers.

use vstd::prelude::*;

use crate::address::Address;
use crate::address::address_eq;
use crate::error::LedgerError;
use crate::payload::u64_from_le_bytes;

verus! {

/// Byte offset of the balance field in a fungible account's raw record.
pub const TOKEN_AMOUNT_OFFSET: usize = 64;

/// A fungible-balance account. For custody accounts the owner is the vault's
/// derived address rather than a held key.
pub struct TokenAccount {
    /// The authority that must be proven to move funds out of this account.
    pub owner: Address,
    /// The asset this account holds a balance of.
    pub mint: Address,
    /// The current balance.
    pub amount: u64,
}

/// Reads a fungible account's balance out of its raw record bytes: the
/// unsigned 64-bit little-endian value at the balance field's offset. This is
/// how a reward balance is harvested after a venue call: by reading the
/// account's updated bytes, not by tracking a predicted delta.
pub fn get_token_balance(data: &Vec<u8>) -> (r: u64)
    requires
        data@.len() >= TOKEN_AMOUNT_OFFSET + 8,
    ensures
        r == u64_from_le_bytes(data@.subrange(64, 72)),
{
    let amount: u64 = (data[64] as u64) | ((data[65] as u64) << 8) | ((data[66] as u64) << 16)
        | ((data[67] as u64) << 24) | ((data[68] as u64) << 32) | ((data[69] as u64) << 40)
        | ((data[70] as u64) << 48) | ((data[71] as u64) << 56);
    proof {
        let s = data@.subrange(64, 72);
        assert(s.len() == 8);
        assert(s[0] == data@[64] && s[1] == data@[65] && s[2] == data@[66] && s[3] == data@[67]
            && s[4] == data@[68] && s[5] == data@[69] && s[6] == data@[70] && s[7] == data@[71]);
    }
    amount
}

/// Moves `amount` from `from` to `to`, authenticated by `authority`: fails
/// with AuthorizationMismatch when the authority is not the source's owner,
/// with InsufficientFunds when the source balance is below the amount, and
/// with ArithmeticOverflow when the destination balance cannot take the
/// credit. On any failure both accounts are unchanged; on success the source
/// is debited and the destination credited by exactly `amount`.
pub fn transfer(
    from: &mut TokenAccount,
    to: &mut TokenAccount,
    amount: u64,
    authority: &Address,
) -> (r: Result<(), LedgerError>)
    ensures
        old(from).owner@ != authority@ ==> r == Err::<(), LedgerError>(
            LedgerError::AuthorizationMismatch,
        ),
        old(from).owner@ == authority@ && old(from).amount < amount ==> r == Err::<(), LedgerError>(
            LedgerError::InsufficientFunds,
        ),
        old(from).owner@ == authority@ && old(from).amount >= amount && old(to).amount + amount
            > u64::MAX ==> r == Err::<(), LedgerError>(LedgerError::ArithmeticOverflow),
        old(from).owner@ == authority@ && old(from).amount >= amount && old(to).amount + amount
            <= u64::MAX ==> (r == Ok::<(), LedgerError>(()) && final(from).amount == old(
            from,
        ).amount - amount && final(to).amount == old(to).amount + amount),
        r is Err ==> *final(from) == *old(from) && *final(to) == *old(to),
        final(from).owner == old(from).owner && final(from).mint == old(from).mint,
        final(to).owner == old(to).owner && final(to).mint == old(to).mint,
{
    if !address_eq(&from.owner, authority) {
        return Err(LedgerError::AuthorizationMismatch);
    }
    if from.amount < amount {
        return Err(LedgerError::InsufficientFunds);
    }
    match to.amount.checked_add(amount) {
        Some(credited) => {
            from.amount = from.amount - amount;
            to.amount = credited;
            Ok(())
        },
        None => Err(LedgerError::ArithmeticOverflow),
    }
}

/// Harvest and sweep: reads the reward-holding account's current balance —
/// whatever the venue credited up to this point — and transfers that entire
/// balance to the destination, returning the swept amount for reporting.
/// Fails with AuthorizationMismatch when the authority is not the reward
/// account's owner, and with ArithmeticOverflow when the destination cannot
/// take the credit; on failure both accounts are unchanged.
pub fn harvest_and_sweep(
    reward_account: &mut TokenAccount,
    destination: &mut TokenAccount,
    authority: &Address,
) -> (r: Result<u64, LedgerError>)
    ensures
        old(reward_account).owner@ != authority@ ==> r == Err::<u64, LedgerError>(
            LedgerError::AuthorizationMismatch,
        ),
        old(reward_account).owner@ == authority@ && old(destination).amount + old(
            reward_account,
        ).amount > u64::MAX ==> r == Err::<u64, LedgerError>(LedgerError::ArithmeticOverflow),
        old(reward_account).owner@ == authority@ && old(destination).amount + old(
            reward_account,
        ).amount <= u64::MAX ==> (r == Ok::<u64, LedgerError>(old(reward_account).amount)
            && final(reward_account).amount == 0 && final(destination).amount == old(
            destination,
        ).amount + old(reward_account).amount),
        r is Err ==> *final(reward_account) == *old(reward_account) && *final(destination) == *old(
            destination,
        ),
        final(reward_account).owner == old(reward_account).owner && final(reward_account).mint
            == old(reward_account).mint,
        final(destination).owner == old(destination).owner && final(destination).mint == old(
            destination,
        ).mint,
{
    let reward_amount = reward_account.amount;
    match transfer(reward_account, destination, reward_amount, authority) {
        Ok(()) => Ok(reward_amount),
        Err(e) => Err(e),
    }
}

} // verus!
