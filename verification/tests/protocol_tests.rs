use coll_vault::{
    derive_address, process_deposit_collateral, process_withdraw_collateral, DomainTag,
    LedgerError, TokenAccount, TokenVault, UserTrove, VenueAccounts, VenueOutcome,
};

const PROGRAM_ID: [u8; 32] = [9u8; 32];
const VENUE_PROGRAM: [u8; 32] = [8u8; 32];
const MINT_COLL: [u8; 32] = [1u8; 32];
const MINT_REWARD: [u8; 32] = [3u8; 32];
const OWNER: [u8; 32] = [2u8; 32];

fn venue_accounts_fixture() -> VenueAccounts {
    VenueAccounts {
        venue_pool_id: [10u8; 32],
        venue_pool_authority: [11u8; 32],
        pool_associated_info_account: [12u8; 32],
        pool_main_account: [13u8; 32],
        pool_lp_account: [14u8; 32],
        venue_pool_lp_account: [15u8; 32],
        pool_reward_token_account: [16u8; 32],
        venue_pool_reward_token_account: [17u8; 32],
        clock: [18u8; 32],
        token_program: [19u8; 32],
        pool_reward_token_b_account: [20u8; 32],
        venue_pool_reward_token_b_account: [21u8; 32],
        pool_info_account_one: [22u8; 32],
        pool_info_account_two: [23u8; 32],
        pool_info_account_three: [24u8; 32],
        pool_info_account_four: [25u8; 32],
        pool_info_account_five: [26u8; 32],
    }
}

fn vault_authority() -> ([u8; 32], u8) {
    let inputs = vec![MINT_COLL.to_vec()];
    derive_address(DomainTag::TokenVault, &inputs, &PROGRAM_ID).expect("a bump must be found")
}

struct Fixture {
    vault: TokenVault,
    trove: UserTrove,
    user_coll: TokenAccount,
    pool_coll: TokenAccount,
    pool_reward: TokenAccount,
    user_reward: TokenAccount,
    vault_address: [u8; 32],
    nonce: u8,
}

fn fixture(user_balance: u64, total_coll: u64, locked: u64) -> Fixture {
    let (vault_address, nonce) = vault_authority();
    Fixture {
        vault: TokenVault { mint_coll: MINT_COLL, total_coll, risk_level: 50 },
        trove: UserTrove { owner: OWNER, locked_coll_balance: locked, debt: 0 },
        user_coll: TokenAccount { owner: OWNER, mint: MINT_COLL, amount: user_balance },
        pool_coll: TokenAccount { owner: vault_address, mint: MINT_COLL, amount: 0 },
        pool_reward: TokenAccount { owner: vault_address, mint: MINT_REWARD, amount: 0 },
        user_reward: TokenAccount { owner: OWNER, mint: MINT_REWARD, amount: 0 },
        vault_address,
        nonce,
    }
}

#[test]
fn deposit_credits_ledger_and_sweeps_reward() {
    // A fresh vault and position; the user deposits 1000 and the venue pool
    // credits 5 reward units during the call.
    let mut f = fixture(1000, 0, 0);
    let va = venue_accounts_fixture();
    let receipt = process_deposit_collateral(
        &mut f.vault,
        &mut f.trove,
        &mut f.user_coll,
        &mut f.pool_coll,
        &mut f.pool_reward,
        &mut f.user_reward,
        &OWNER,
        &f.vault_address,
        f.nonce,
        1000,
        &VENUE_PROGRAM,
        &va,
        VenueOutcome::Accepted { reward_credited: 5 },
        &PROGRAM_ID,
    )
    .expect("the deposit must succeed");
    assert_eq!(f.vault.total_coll, 1000);
    assert_eq!(f.trove.locked_coll_balance, 1000);
    assert_eq!(f.user_coll.amount, 0);
    assert_eq!(f.pool_coll.amount, 0);
    assert_eq!(f.pool_reward.amount, 0);
    assert_eq!(f.user_reward.amount, 5);
    assert_eq!(receipt.reward_swept, 5);
    assert_eq!(receipt.instruction.program_id, VENUE_PROGRAM);
    assert_eq!(receipt.instruction.data, vec![11u8, 232, 3, 0, 0, 0, 0, 0, 0]);
    assert_eq!(receipt.instruction.accounts.len(), 17);
    assert_eq!(receipt.instruction.accounts[0].address, va.venue_pool_id);
    assert!(receipt.instruction.accounts[0].writable);
    assert!(!receipt.instruction.accounts[0].signer);
    assert_eq!(receipt.instruction.accounts[1].address, va.venue_pool_authority);
    assert!(!receipt.instruction.accounts[1].writable);
    assert_eq!(receipt.instruction.accounts[3].address, va.pool_main_account);
    assert!(receipt.instruction.accounts[3].signer);
    assert_eq!(receipt.instruction.accounts[8].address, va.clock);
    assert!(!receipt.instruction.accounts[8].writable);
    assert_eq!(receipt.instruction.accounts[9].address, va.token_program);
    assert_eq!(receipt.instruction.accounts[16].address, va.pool_info_account_five);
}

#[test]
fn deposit_fails_atomically_when_the_venue_rejects() {
    let mut f = fixture(1000, 0, 0);
    let va = venue_accounts_fixture();
    let result = process_deposit_collateral(
        &mut f.vault,
        &mut f.trove,
        &mut f.user_coll,
        &mut f.pool_coll,
        &mut f.pool_reward,
        &mut f.user_reward,
        &OWNER,
        &f.vault_address,
        f.nonce,
        1000,
        &VENUE_PROGRAM,
        &va,
        VenueOutcome::Rejected,
        &PROGRAM_ID,
    );
    assert_eq!(result.err(), Some(LedgerError::CrossContractCallFailure));
    assert_eq!(f.vault.total_coll, 0);
    assert_eq!(f.trove.locked_coll_balance, 0);
    assert_eq!(f.user_coll.amount, 1000);
    assert_eq!(f.pool_coll.amount, 0);
    assert_eq!(f.pool_reward.amount, 0);
    assert_eq!(f.user_reward.amount, 0);
}

#[test]
fn deposit_rejects_insufficient_user_funds() {
    let mut f = fixture(999, 0, 0);
    let va = venue_accounts_fixture();
    let result = process_deposit_collateral(
        &mut f.vault,
        &mut f.trove,
        &mut f.user_coll,
        &mut f.pool_coll,
        &mut f.pool_reward,
        &mut f.user_reward,
        &OWNER,
        &f.vault_address,
        f.nonce,
        1000,
        &VENUE_PROGRAM,
        &va,
        VenueOutcome::Accepted { reward_credited: 0 },
        &PROGRAM_ID,
    );
    assert_eq!(result.err(), Some(LedgerError::InsufficientFunds));
    assert_eq!(f.user_coll.amount, 999);
    assert_eq!(f.vault.total_coll, 0);
}

#[test]
fn deposit_rejects_a_wrong_vault_bump() {
    let mut f = fixture(1000, 0, 0);
    let va = venue_accounts_fixture();
    let wrong_nonce = if f.nonce == 0 { 1 } else { f.nonce - 1 };
    let result = process_deposit_collateral(
        &mut f.vault,
        &mut f.trove,
        &mut f.user_coll,
        &mut f.pool_coll,
        &mut f.pool_reward,
        &mut f.user_reward,
        &OWNER,
        &f.vault_address,
        wrong_nonce,
        1000,
        &VENUE_PROGRAM,
        &va,
        VenueOutcome::Accepted { reward_credited: 0 },
        &PROGRAM_ID,
    );
    assert_eq!(result.err(), Some(LedgerError::InvalidDerivedAddress));
    assert_eq!(f.user_coll.amount, 1000);
    assert_eq!(f.vault.total_coll, 0);
}

#[test]
fn deposit_rejects_a_foreign_signer() {
    let mut f = fixture(1000, 0, 0);
    let va = venue_accounts_fixture();
    let intruder = [4u8; 32];
    let result = process_deposit_collateral(
        &mut f.vault,
        &mut f.trove,
        &mut f.user_coll,
        &mut f.pool_coll,
        &mut f.pool_reward,
        &mut f.user_reward,
        &intruder,
        &f.vault_address,
        f.nonce,
        1000,
        &VENUE_PROGRAM,
        &va,
        VenueOutcome::Accepted { reward_credited: 0 },
        &PROGRAM_ID,
    );
    assert_eq!(result.err(), Some(LedgerError::AuthorizationMismatch));
    assert_eq!(f.user_coll.amount, 1000);
}

#[test]
fn deposit_of_zero_is_an_accepted_no_op() {
    // Explicit policy: a zero amount is accepted and moves nothing.
    let mut f = fixture(1000, 0, 0);
    let va = venue_accounts_fixture();
    let receipt = process_deposit_collateral(
        &mut f.vault,
        &mut f.trove,
        &mut f.user_coll,
        &mut f.pool_coll,
        &mut f.pool_reward,
        &mut f.user_reward,
        &OWNER,
        &f.vault_address,
        f.nonce,
        0,
        &VENUE_PROGRAM,
        &va,
        VenueOutcome::Accepted { reward_credited: 0 },
        &PROGRAM_ID,
    )
    .expect("a zero deposit must succeed");
    assert_eq!(receipt.reward_swept, 0);
    assert_eq!(f.vault.total_coll, 0);
    assert_eq!(f.trove.locked_coll_balance, 0);
    assert_eq!(f.user_coll.amount, 1000);
    assert_eq!(f.user_reward.amount, 0);
}

#[test]
fn withdraw_debits_ledger_and_returns_collateral() {
    let mut f = fixture(0, 1000, 1000);
    let va = venue_accounts_fixture();
    let receipt = process_withdraw_collateral(
        &mut f.vault,
        &mut f.trove,
        &mut f.user_coll,
        &mut f.pool_coll,
        &mut f.pool_reward,
        &mut f.user_reward,
        &OWNER,
        &f.vault_address,
        f.nonce,
        400,
        &VENUE_PROGRAM,
        &va,
        VenueOutcome::Accepted { reward_credited: 2 },
        &PROGRAM_ID,
    )
    .expect("the withdrawal must succeed");
    assert_eq!(f.vault.total_coll, 600);
    assert_eq!(f.trove.locked_coll_balance, 600);
    assert_eq!(f.user_coll.amount, 400);
    assert_eq!(f.pool_coll.amount, 0);
    assert_eq!(f.pool_reward.amount, 0);
    assert_eq!(f.user_reward.amount, 2);
    assert_eq!(receipt.reward_swept, 2);
    assert_eq!(receipt.instruction.data, vec![12u8, 144, 1, 0, 0, 0, 0, 0, 0]);
    assert_eq!(receipt.instruction.accounts.len(), 17);
}

#[test]
fn withdraw_beyond_locked_fails_and_leaves_state_unchanged() {
    let mut f = fixture(0, 1000, 700);
    let va = venue_accounts_fixture();
    let result = process_withdraw_collateral(
        &mut f.vault,
        &mut f.trove,
        &mut f.user_coll,
        &mut f.pool_coll,
        &mut f.pool_reward,
        &mut f.user_reward,
        &OWNER,
        &f.vault_address,
        f.nonce,
        701,
        &VENUE_PROGRAM,
        &va,
        VenueOutcome::Accepted { reward_credited: 0 },
        &PROGRAM_ID,
    );
    assert_eq!(result.err(), Some(LedgerError::InsufficientFunds));
    assert_eq!(f.vault.total_coll, 1000);
    assert_eq!(f.trove.locked_coll_balance, 700);
    assert_eq!(f.user_coll.amount, 0);
}

#[test]
fn withdraw_of_zero_is_an_accepted_no_op() {
    let mut f = fixture(0, 1000, 1000);
    let va = venue_accounts_fixture();
    let receipt = process_withdraw_collateral(
        &mut f.vault,
        &mut f.trove,
        &mut f.user_coll,
        &mut f.pool_coll,
        &mut f.pool_reward,
        &mut f.user_reward,
        &OWNER,
        &f.vault_address,
        f.nonce,
        0,
        &VENUE_PROGRAM,
        &va,
        VenueOutcome::Accepted { reward_credited: 0 },
        &PROGRAM_ID,
    )
    .expect("a zero withdrawal must succeed");
    assert_eq!(receipt.reward_swept, 0);
    assert_eq!(f.vault.total_coll, 1000);
    assert_eq!(f.trove.locked_coll_balance, 1000);
    assert_eq!(f.user_coll.amount, 0);
}

#[test]
fn withdraw_fails_atomically_when_the_venue_rejects() {
    let mut f = fixture(0, 1000, 1000);
    let va = venue_accounts_fixture();
    let result = process_withdraw_collateral(
        &mut f.vault,
        &mut f.trove,
        &mut f.user_coll,
        &mut f.pool_coll,
        &mut f.pool_reward,
        &mut f.user_reward,
        &OWNER,
        &f.vault_address,
        f.nonce,
        400,
        &VENUE_PROGRAM,
        &va,
        VenueOutcome::Rejected,
        &PROGRAM_ID,
    );
    assert_eq!(result.err(), Some(LedgerError::CrossContractCallFailure));
    assert_eq!(f.vault.total_coll, 1000);
    assert_eq!(f.trove.locked_coll_balance, 1000);
    assert_eq!(f.user_coll.amount, 0);
    assert_eq!(f.pool_reward.amount, 0);
    assert_eq!(f.user_reward.amount, 0);
}

#[test]
fn deposit_sweeps_a_pre_existing_reward_balance_too() {
    // The sweep drains the whole reward account: anything already sitting in
    // it leaves together with what the venue credited during the call.
    let mut f = fixture(100, 0, 0);
    f.pool_reward.amount = 3;
    let va = venue_accounts_fixture();
    let receipt = process_deposit_collateral(
        &mut f.vault,
        &mut f.trove,
        &mut f.user_coll,
        &mut f.pool_coll,
        &mut f.pool_reward,
        &mut f.user_reward,
        &OWNER,
        &f.vault_address,
        f.nonce,
        100,
        &VENUE_PROGRAM,
        &va,
        VenueOutcome::Accepted { reward_credited: 5 },
        &PROGRAM_ID,
    )
    .expect("the deposit must succeed");
    assert_eq!(receipt.reward_swept, 8);
    assert_eq!(f.pool_reward.amount, 0);
    assert_eq!(f.user_reward.amount, 8);
}
