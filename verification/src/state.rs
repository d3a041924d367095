//! Ledger record model: the three durable entities and their narrowly-scoped
//! mutators. Mutators only adjust the record they belong to; moving funds is
//! the transfer primitive's job, so bookkeeping and fund movement stay
//! independently auditable.

use vstd::prelude::*;

use crate::address::Address;
use crate::error::LedgerError;

verus! {

/// Singleton global configuration: the stable-asset mint identity and the
/// privileged owner identity. Reachable only through an explicit handle; no
/// hidden process-wide state.
pub struct GlobalState {
    /// The privileged owner allowed to run configuration-gated operations.
    pub super_owner: Address,
    /// The stable-asset mint the ledger issues debt in.
    pub mint_usd: Address,
}

/// Per-collateral-asset vault: tracks the collateral identity and the total
/// locked collateral across all positions, with a bounded risk parameter.
pub struct TokenVault {
    /// Identity of the approved collateral asset.
    pub mint_coll: Address,
    /// Total locked collateral over every position of this vault.
    pub total_coll: u64,
    /// Risk parameter bounding how much may be borrowed against collateral.
    pub risk_level: u8,
}

/// Per-user, per-vault position ("trove"): locked collateral and outstanding
/// debt. Debt accounting lives in the borrow and repay flows and only shares
/// this record.
pub struct UserTrove {
    /// The position's owner identity.
    pub owner: Address,
    /// Collateral locked under this position.
    pub locked_coll_balance: u64,
    /// Outstanding stable-asset debt.
    pub debt: u64,
}

impl TokenVault {
    /// Credits the vault's total locked collateral, failing on overflow and
    /// leaving the record unchanged in that case.
    pub fn increase_total(&mut self, amount: u64) -> (r: Result<(), LedgerError>)
        ensures
            old(self).total_coll + amount <= u64::MAX ==> (r == Ok::<(), LedgerError>(())
                && final(self).total_coll == old(self).total_coll + amount),
            old(self).total_coll + amount > u64::MAX ==> (r == Err::<(), LedgerError>(
                LedgerError::ArithmeticOverflow,
            ) && *final(self) == *old(self)),
            final(self).mint_coll == old(self).mint_coll,
            final(self).risk_level == old(self).risk_level,
    {
        match self.total_coll.checked_add(amount) {
            Some(new_total) => {
                self.total_coll = new_total;
                Ok(())
            },
            None => Err(LedgerError::ArithmeticOverflow),
        }
    }

    /// Debits the vault's total locked collateral, failing when the total
    /// would go negative and leaving the record unchanged in that case.
    pub fn decrease_total(&mut self, amount: u64) -> (r: Result<(), LedgerError>)
        ensures
            old(self).total_coll >= amount ==> (r == Ok::<(), LedgerError>(())
                && final(self).total_coll == old(self).total_coll - amount),
            old(self).total_coll < amount ==> (r == Err::<(), LedgerError>(
                LedgerError::ArithmeticUnderflow,
            ) && *final(self) == *old(self)),
            final(self).mint_coll == old(self).mint_coll,
            final(self).risk_level == old(self).risk_level,
    {
        match self.total_coll.checked_sub(amount) {
            Some(new_total) => {
                self.total_coll = new_total;
                Ok(())
            },
            None => Err(LedgerError::ArithmeticUnderflow),
        }
    }
}

impl UserTrove {
    /// Credits the position's locked collateral, failing on overflow and
    /// leaving the record unchanged in that case.
    pub fn increase_locked(&mut self, amount: u64) -> (r: Result<(), LedgerError>)
        ensures
            old(self).locked_coll_balance + amount <= u64::MAX ==> (r == Ok::<(), LedgerError>(())
                && final(self).locked_coll_balance == old(self).locked_coll_balance + amount),
            old(self).locked_coll_balance + amount > u64::MAX ==> (r == Err::<(), LedgerError>(
                LedgerError::ArithmeticOverflow,
            ) && *final(self) == *old(self)),
            final(self).owner == old(self).owner,
            final(self).debt == old(self).debt,
    {
        match self.locked_coll_balance.checked_add(amount) {
            Some(new_locked) => {
                self.locked_coll_balance = new_locked;
                Ok(())
            },
            None => Err(LedgerError::ArithmeticOverflow),
        }
    }

    /// Debits the position's locked collateral, failing when the balance
    /// would go negative and leaving the record unchanged in that case. A
    /// position can never give up more than it holds.
    pub fn decrease_locked(&mut self, amount: u64) -> (r: Result<(), LedgerError>)
        ensures
            old(self).locked_coll_balance >= amount ==> (r == Ok::<(), LedgerError>(())
                && final(self).locked_coll_balance == old(self).locked_coll_balance - amount),
            old(self).locked_coll_balance < amount ==> (r == Err::<(), LedgerError>(
                LedgerError::InsufficientFunds,
            ) && *final(self) == *old(self)),
            final(self).owner == old(self).owner,
            final(self).debt == old(self).debt,
    {
        match self.locked_coll_balance.checked_sub(amount) {
            Some(new_locked) => {
                self.locked_coll_balance = new_locked;
                Ok(())
            },
            None => Err(LedgerError::InsufficientFunds),
        }
    }
}

} // verus!
