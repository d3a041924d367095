//! Collateral movement protocol: the deposit and withdrawal operations,
//! orchestrating the transfer primitive, the ledger mutators, the address
//! model and the staking bridge. Each operation runs as one atomic unit: any
//! failing step aborts the whole invocation and leaves every record exactly
//! as it was, so no partial mutation is ever visible.

use vstd::prelude::*;

use crate::address::Address;
use crate::address::DomainTag;
use crate::address::address_eq;
use crate::address::address_to_vec;
use crate::address::create_program_address_of;
use crate::address::spec_seed_material;
use crate::address::verify_address;
use crate::bridge::InstructionData;
use crate::bridge::STAKE_OPCODE;
use crate::bridge::UNSTAKE_OPCODE;
use crate::bridge::VenueAccounts;
use crate::bridge::build_venue_instruction;
use crate::bridge::spec_venue_account_list;
use crate::error::LedgerError;
use crate::payload::stake_payload_bytes;
use crate::state::TokenVault;
use crate::state::UserTrove;
use crate::token::TokenAccount;
use crate::token::harvest_and_sweep;
use crate::token::transfer;

verus! {

/// What the external venue did with a cross-contract call. The venue is an
/// opaque partner: the protocol states what holds for every outcome and the
/// surrounding execution environment reports which one occurred.
#[derive(Clone, Copy, Debug, PartialEq, Eq, Structural)]
pub enum VenueOutcome {
    /// The venue accepted the call, taking over the staked custody balance
    /// and crediting this many reward units to the pool reward account
    /// during the call.
    Accepted { reward_credited: u64 },
    /// The venue rejected or aborted the call.
    Rejected,
}

/// The vault's derived authority recomputes to the claimed vault address from
/// the vault tag, the collateral identity and the claimed bump.
pub open spec fn spec_vault_authority_ok(
    mint_coll: Seq<u8>,
    vault_address: Seq<u8>,
    nonce: u8,
    program_id: Seq<u8>,
) -> bool {
    create_program_address_of(
        spec_seed_material(DomainTag::TokenVault, seq![mint_coll]).push(seq![nonce]),
        program_id,
    ) == Some(vault_address)
}

/// The outcome a deposit invocation owes for given pre-state and venue
/// outcome: the reward amount swept to the user on success, or the error of
/// the first failing step. The step order is transfer-in, ledger credit,
/// stake, harvest, reward sweep.
pub open spec fn spec_deposit_result(
    vault: TokenVault,
    trove: UserTrove,
    user_coll: TokenAccount,
    pool_coll: TokenAccount,
    pool_reward: TokenAccount,
    user_reward: TokenAccount,
    owner: Seq<u8>,
    vault_address: Seq<u8>,
    nonce: u8,
    amount: u64,
    venue: VenueOutcome,
    program_id: Seq<u8>,
) -> Result<u64, LedgerError> {
    if trove.owner@ != owner {
        Err(LedgerError::AuthorizationMismatch)
    } else if user_coll.owner@ != owner {
        Err(LedgerError::AuthorizationMismatch)
    } else if user_coll.amount < amount {
        Err(LedgerError::InsufficientFunds)
    } else if pool_coll.amount + amount > u64::MAX {
        Err(LedgerError::ArithmeticOverflow)
    } else if vault.total_coll + amount > u64::MAX {
        Err(LedgerError::ArithmeticOverflow)
    } else if trove.locked_coll_balance + amount > u64::MAX {
        Err(LedgerError::ArithmeticOverflow)
    } else if !spec_vault_authority_ok(vault.mint_coll@, vault_address, nonce, program_id) {
        Err(LedgerError::InvalidDerivedAddress)
    } else if pool_coll.owner@ != vault_address {
        Err(LedgerError::AuthorizationMismatch)
    } else if pool_reward.owner@ != vault_address {
        Err(LedgerError::AuthorizationMismatch)
    } else {
        match venue {
            VenueOutcome::Rejected => Err(LedgerError::CrossContractCallFailure),
            VenueOutcome::Accepted { reward_credited } => {
                if pool_reward.amount + reward_credited > u64::MAX {
                    Err(LedgerError::CrossContractCallFailure)
                } else if user_reward.amount + pool_reward.amount + reward_credited > u64::MAX {
                    Err(LedgerError::ArithmeticOverflow)
                } else {
                    Ok((pool_reward.amount + reward_credited) as u64)
                }
            },
        }
    }
}

/// What a completed deposit or withdrawal reports back: the exact
/// cross-contract instruction issued to the venue, and the reward amount
/// swept to the user.
pub struct OperationReceipt {
    pub instruction: InstructionData,
    pub reward_swept: u64,
}

/// Deposits `amount` of collateral: moves it from the user's account into the
/// vault's custody pool, credits the vault and position ledgers, stakes the
/// newly received custody balance with the external venue under the vault's
/// derived authority, then reads the venue-credited reward balance and sweeps
/// all of it to the user. Any failing step aborts the whole invocation with
/// every record unchanged.
pub fn process_deposit_collateral(
    vault: &mut TokenVault,
    user_trove: &mut UserTrove,
    user_token_coll: &mut TokenAccount,
    pool_token_coll: &mut TokenAccount,
    pool_reward_token: &mut TokenAccount,
    user_reward_token: &mut TokenAccount,
    owner: &Address,
    vault_address: &Address,
    token_vault_nonce: u8,
    amount: u64,
    venue_program: &Address,
    venue_accounts: &VenueAccounts,
    venue: VenueOutcome,
    program_id: &Address,
) -> (r: Result<OperationReceipt, LedgerError>)
    ensures
        r matches Ok(rc) ==> spec_deposit_result(
            *old(vault),
            *old(user_trove),
            *old(user_token_coll),
            *old(pool_token_coll),
            *old(pool_reward_token),
            *old(user_reward_token),
            owner@,
            vault_address@,
            token_vault_nonce,
            amount,
            venue,
            program_id@,
        ) == Ok::<u64, LedgerError>(rc.reward_swept),
        r matches Err(e) ==> spec_deposit_result(
            *old(vault),
            *old(user_trove),
            *old(user_token_coll),
            *old(pool_token_coll),
            *old(pool_reward_token),
            *old(user_reward_token),
            owner@,
            vault_address@,
            token_vault_nonce,
            amount,
            venue,
            program_id@,
        ) == Err::<u64, LedgerError>(e),
        r matches Ok(rc) ==> final(vault).total_coll == old(vault).total_coll + amount
            && final(user_trove).locked_coll_balance
                == old(user_trove).locked_coll_balance + amount
            && final(user_token_coll).amount == old(user_token_coll).amount - amount
            && final(pool_token_coll).amount == old(pool_token_coll).amount
            && final(pool_reward_token).amount == 0
            && final(user_reward_token).amount
                == old(user_reward_token).amount + rc.reward_swept,
        r matches Ok(rc) ==> rc.instruction.program_id@ == venue_program@
            && rc.instruction.accounts@ == spec_venue_account_list(*venue_accounts)
            && rc.instruction.data@ == stake_payload_bytes(STAKE_OPCODE, amount),
        r is Err ==> *final(vault) == *old(vault) && *final(user_trove) == *old(user_trove)
            && *final(user_token_coll) == *old(user_token_coll)
            && *final(pool_token_coll) == *old(pool_token_coll)
            && *final(pool_reward_token) == *old(pool_reward_token)
            && *final(user_reward_token) == *old(user_reward_token),
        final(vault).mint_coll == old(vault).mint_coll
            && final(vault).risk_level == old(vault).risk_level,
        final(user_trove).owner == old(user_trove).owner
            && final(user_trove).debt == old(user_trove).debt,
        final(user_token_coll).owner == old(user_token_coll).owner
            && final(user_token_coll).mint == old(user_token_coll).mint,
        final(pool_token_coll).owner == old(pool_token_coll).owner
            && final(pool_token_coll).mint == old(pool_token_coll).mint,
        final(pool_reward_token).owner == old(pool_reward_token).owner
            && final(pool_reward_token).mint == old(pool_reward_token).mint,
        final(user_reward_token).owner == old(user_reward_token).owner
            && final(user_reward_token).mint == old(user_reward_token).mint,
{
    // Every step is validated before any record is touched: a failure found
    // here is the same failure the step itself would hit, and aborting before
    // mutation is how the environment's all-or-nothing commit looks from
    // inside one invocation.
    if !address_eq(&user_trove.owner, owner) {
        return Err(LedgerError::AuthorizationMismatch);
    }
    if !address_eq(&user_token_coll.owner, owner) {
        return Err(LedgerError::AuthorizationMismatch);
    }
    if user_token_coll.amount < amount {
        return Err(LedgerError::InsufficientFunds);
    }
    if pool_token_coll.amount.checked_add(amount).is_none() {
        return Err(LedgerError::ArithmeticOverflow);
    }
    if vault.total_coll.checked_add(amount).is_none() {
        return Err(LedgerError::ArithmeticOverflow);
    }
    if user_trove.locked_coll_balance.checked_add(amount).is_none() {
        return Err(LedgerError::ArithmeticOverflow);
    }
    // The vault's signing authority: never trust the supplied address and
    // bump pair, recompute it from the vault tag and collateral identity.
    let mut seed_inputs: Vec<Vec<u8>> = Vec::new();
    seed_inputs.push(address_to_vec(&vault.mint_coll));
    proof {
        assert(crate::address::seeds_view(seed_inputs@) =~= seq![vault.mint_coll@]);
    }
    if !verify_address(
        vault_address,
        DomainTag::TokenVault,
        &seed_inputs,
        token_vault_nonce,
        program_id,
    ) {
        return Err(LedgerError::InvalidDerivedAddress);
    }
    if !address_eq(&pool_token_coll.owner, vault_address) {
        return Err(LedgerError::AuthorizationMismatch);
    }
    if !address_eq(&pool_reward_token.owner, vault_address) {
        return Err(LedgerError::AuthorizationMismatch);
    }
    let reward_credited: u64 = match venue {
        VenueOutcome::Accepted { reward_credited } => reward_credited,
        VenueOutcome::Rejected => {
            return Err(LedgerError::CrossContractCallFailure);
        },
    };
    if pool_reward_token.amount.checked_add(reward_credited).is_none() {
        return Err(LedgerError::CrossContractCallFailure);
    }
    let harvested = pool_reward_token.amount + reward_credited;
    if user_reward_token.amount.checked_add(harvested).is_none() {
        return Err(LedgerError::ArithmeticOverflow);
    }
    // Transfer in: the user's collateral moves to the custody pool.
    match transfer(user_token_coll, pool_token_coll, amount, owner) {
        Ok(()) => (),
        Err(e) => {
            return Err(e);
        },
    }
    // Credit the ledger after the funds arrived, never before.
    match vault.increase_total(amount) {
        Ok(()) => (),
        Err(e) => {
            return Err(e);
        },
    }
    match user_trove.increase_locked(amount) {
        Ok(()) => (),
        Err(e) => {
            return Err(e);
        },
    }
    // Stake: the venue call, signed by the vault's derived authority, hands
    // the freshly received custody balance over to the venue's pool and the
    // venue credits any accrued reward during the same call.
    let instruction = build_venue_instruction(venue_program, venue_accounts, STAKE_OPCODE, amount);
    pool_token_coll.amount = pool_token_coll.amount - amount;
    pool_reward_token.amount = pool_reward_token.amount + reward_credited;
    // Harvest and sweep: the reward is whatever the venue credited, defined
    // by reading the reward account's balance after the call returned, and
    // all of it goes back to the depositor, signed by the vault's derived
    // authority.
    let reward_amount = match harvest_and_sweep(
        pool_reward_token,
        user_reward_token,
        vault_address,
    ) {
        Ok(a) => a,
        Err(e) => {
            return Err(e);
        },
    };
    Ok(OperationReceipt { instruction, reward_swept: reward_amount })
}

/// The outcome a withdrawal invocation owes for given pre-state and venue
/// outcome. The step order is ledger check and debit, unstake, transfer out,
/// harvest, reward sweep: the balance check precedes any transfer, so no more
/// than the recorded locked collateral can ever leave.
pub open spec fn spec_withdraw_result(
    vault: TokenVault,
    trove: UserTrove,
    user_coll: TokenAccount,
    pool_coll: TokenAccount,
    pool_reward: TokenAccount,
    user_reward: TokenAccount,
    owner: Seq<u8>,
    vault_address: Seq<u8>,
    nonce: u8,
    amount: u64,
    venue: VenueOutcome,
    program_id: Seq<u8>,
) -> Result<u64, LedgerError> {
    if trove.owner@ != owner {
        Err(LedgerError::AuthorizationMismatch)
    } else if user_coll.owner@ != owner {
        Err(LedgerError::AuthorizationMismatch)
    } else if trove.locked_coll_balance < amount {
        Err(LedgerError::InsufficientFunds)
    } else if vault.total_coll < amount {
        Err(LedgerError::ArithmeticUnderflow)
    } else if !spec_vault_authority_ok(vault.mint_coll@, vault_address, nonce, program_id) {
        Err(LedgerError::InvalidDerivedAddress)
    } else if pool_coll.owner@ != vault_address {
        Err(LedgerError::AuthorizationMismatch)
    } else if pool_reward.owner@ != vault_address {
        Err(LedgerError::AuthorizationMismatch)
    } else {
        match venue {
            VenueOutcome::Rejected => Err(LedgerError::CrossContractCallFailure),
            VenueOutcome::Accepted { reward_credited } => {
                if pool_coll.amount + amount > u64::MAX {
                    Err(LedgerError::CrossContractCallFailure)
                } else if user_coll.amount + amount > u64::MAX {
                    Err(LedgerError::ArithmeticOverflow)
                } else if pool_reward.amount + reward_credited > u64::MAX {
                    Err(LedgerError::CrossContractCallFailure)
                } else if user_reward.amount + pool_reward.amount + reward_credited > u64::MAX {
                    Err(LedgerError::ArithmeticOverflow)
                } else {
                    Ok((pool_reward.amount + reward_credited) as u64)
                }
            },
        }
    }
}

/// Withdraws `amount` of collateral, the mirror of a deposit: checks and
/// debits the ledger first (never transferring more than is recorded as
/// locked), calls the venue's unstake opcode to pull the collateral back into
/// the custody pool, returns it to the user, then reads the venue-credited
/// reward balance and sweeps all of it to the user. Any failing step aborts
/// the whole invocation with every record unchanged.
pub fn process_withdraw_collateral(
    vault: &mut TokenVault,
    user_trove: &mut UserTrove,
    user_token_coll: &mut TokenAccount,
    pool_token_coll: &mut TokenAccount,
    pool_reward_token: &mut TokenAccount,
    user_reward_token: &mut TokenAccount,
    owner: &Address,
    vault_address: &Address,
    token_vault_nonce: u8,
    amount: u64,
    venue_program: &Address,
    venue_accounts: &VenueAccounts,
    venue: VenueOutcome,
    program_id: &Address,
) -> (r: Result<OperationReceipt, LedgerError>)
    ensures
        r matches Ok(rc) ==> spec_withdraw_result(
            *old(vault),
            *old(user_trove),
            *old(user_token_coll),
            *old(pool_token_coll),
            *old(pool_reward_token),
            *old(user_reward_token),
            owner@,
            vault_address@,
            token_vault_nonce,
            amount,
            venue,
            program_id@,
        ) == Ok::<u64, LedgerError>(rc.reward_swept),
        r matches Err(e) ==> spec_withdraw_result(
            *old(vault),
            *old(user_trove),
            *old(user_token_coll),
            *old(pool_token_coll),
            *old(pool_reward_token),
            *old(user_reward_token),
            owner@,
            vault_address@,
            token_vault_nonce,
            amount,
            venue,
            program_id@,
        ) == Err::<u64, LedgerError>(e),
        r matches Ok(rc) ==> final(vault).total_coll == old(vault).total_coll - amount
            && final(user_trove).locked_coll_balance
                == old(user_trove).locked_coll_balance - amount
            && final(user_token_coll).amount == old(user_token_coll).amount + amount
            && final(pool_token_coll).amount == old(pool_token_coll).amount
            && final(pool_reward_token).amount == 0
            && final(user_reward_token).amount
                == old(user_reward_token).amount + rc.reward_swept,
        r matches Ok(rc) ==> rc.instruction.program_id@ == venue_program@
            && rc.instruction.accounts@ == spec_venue_account_list(*venue_accounts)
            && rc.instruction.data@ == stake_payload_bytes(UNSTAKE_OPCODE, amount),
        r is Err ==> *final(vault) == *old(vault) && *final(user_trove) == *old(user_trove)
            && *final(user_token_coll) == *old(user_token_coll)
            && *final(pool_token_coll) == *old(pool_token_coll)
            && *final(pool_reward_token) == *old(pool_reward_token)
            && *final(user_reward_token) == *old(user_reward_token),
        final(vault).mint_coll == old(vault).mint_coll
            && final(vault).risk_level == old(vault).risk_level,
        final(user_trove).owner == old(user_trove).owner
            && final(user_trove).debt == old(user_trove).debt,
        final(user_token_coll).owner == old(user_token_coll).owner
            && final(user_token_coll).mint == old(user_token_coll).mint,
        final(pool_token_coll).owner == old(pool_token_coll).owner
            && final(pool_token_coll).mint == old(pool_token_coll).mint,
        final(pool_reward_token).owner == old(pool_reward_token).owner
            && final(pool_reward_token).mint == old(pool_reward_token).mint,
        final(user_reward_token).owner == old(user_reward_token).owner
            && final(user_reward_token).mint == old(user_reward_token).mint,
{
    // As in a deposit, every step is validated before any record is touched;
    // the balance check precedes any transfer.
    if !address_eq(&user_trove.owner, owner) {
        return Err(LedgerError::AuthorizationMismatch);
    }
    if !address_eq(&user_token_coll.owner, owner) {
        return Err(LedgerError::AuthorizationMismatch);
    }
    if user_trove.locked_coll_balance < amount {
        return Err(LedgerError::InsufficientFunds);
    }
    if vault.total_coll < amount {
        return Err(LedgerError::ArithmeticUnderflow);
    }
    let mut seed_inputs: Vec<Vec<u8>> = Vec::new();
    seed_inputs.push(address_to_vec(&vault.mint_coll));
    proof {
        assert(crate::address::seeds_view(seed_inputs@) =~= seq![vault.mint_coll@]);
    }
    if !verify_address(
        vault_address,
        DomainTag::TokenVault,
        &seed_inputs,
        token_vault_nonce,
        program_id,
    ) {
        return Err(LedgerError::InvalidDerivedAddress);
    }
    if !address_eq(&pool_token_coll.owner, vault_address) {
        return Err(LedgerError::AuthorizationMismatch);
    }
    if !address_eq(&pool_reward_token.owner, vault_address) {
        return Err(LedgerError::AuthorizationMismatch);
    }
    let reward_credited: u64 = match venue {
        VenueOutcome::Accepted { reward_credited } => reward_credited,
        VenueOutcome::Rejected => {
            return Err(LedgerError::CrossContractCallFailure);
        },
    };
    if pool_token_coll.amount.checked_add(amount).is_none() {
        return Err(LedgerError::CrossContractCallFailure);
    }
    if user_token_coll.amount.checked_add(amount).is_none() {
        return Err(LedgerError::ArithmeticOverflow);
    }
    if pool_reward_token.amount.checked_add(reward_credited).is_none() {
        return Err(LedgerError::CrossContractCallFailure);
    }
    let harvested = pool_reward_token.amount + reward_credited;
    if user_reward_token.amount.checked_add(harvested).is_none() {
        return Err(LedgerError::ArithmeticOverflow);
    }
    // Check and debit the ledger before any funds move.
    match user_trove.decrease_locked(amount) {
        Ok(()) => (),
        Err(e) => {
            return Err(e);
        },
    }
    match vault.decrease_total(amount) {
        Ok(()) => (),
        Err(e) => {
            return Err(e);
        },
    }
    // Unstake: the venue call, signed by the vault's derived authority,
    // returns the collateral to the custody pool and the venue credits any
    // accrued reward during the same call.
    let instruction = build_venue_instruction(
        venue_program,
        venue_accounts,
        UNSTAKE_OPCODE,
        amount,
    );
    pool_token_coll.amount = pool_token_coll.amount + amount;
    pool_reward_token.amount = pool_reward_token.amount + reward_credited;
    // Transfer out: the collateral goes back to the user, signed by the
    // vault's derived authority.
    match transfer(pool_token_coll, user_token_coll, amount, vault_address) {
        Ok(()) => (),
        Err(e) => {
            return Err(e);
        },
    }
    // Harvest after the call, then sweep the whole balance to the user.
    let reward_amount = match harvest_and_sweep(
        pool_reward_token,
        user_reward_token,
        vault_address,
    ) {
        Ok(a) => a,
        Err(e) => {
            return Err(e);
        },
    };
    Ok(OperationReceipt { instruction, reward_swept: reward_amount })
}

} // verus!
