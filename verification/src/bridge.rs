//! Staking bridge: builds the outbound cross-contract calls to the external
//! yield venue. The venue's entry point expects an exact payload (opcode plus
//! little-endian amount) and an exact ordered list of seventeen participant
//! accounts; both are part of the wire contract.

use vstd::prelude::*;

use crate::address::Address;
use crate::payload::Stake;
use crate::payload::stake_payload_bytes;

verus! {

/// The venue's opcode for depositing into its yield pool.
pub const STAKE_OPCODE: u8 = 11;

/// The venue's opcode for withdrawing from its yield pool.
pub const UNSTAKE_OPCODE: u8 = 12;

/// One participant account of a cross-contract call: its address, whether the
/// callee may mutate it, and whether it signs the call.
#[derive(Clone, Copy, Debug, PartialEq, Eq)]
pub struct AccountRef {
    pub address: Address,
    pub writable: bool,
    pub signer: bool,
}

/// The participant accounts a venue call needs, in the program's own naming:
/// `pool_*` accounts belong to the vault's custody side, `venue_*` accounts
/// to the venue's pool bookkeeping.
pub struct VenueAccounts {
    pub venue_pool_id: Address,
    pub venue_pool_authority: Address,
    pub pool_associated_info_account: Address,
    pub pool_main_account: Address,
    pub pool_lp_account: Address,
    pub venue_pool_lp_account: Address,
    pub pool_reward_token_account: Address,
    pub venue_pool_reward_token_account: Address,
    pub clock: Address,
    pub token_program: Address,
    pub pool_reward_token_b_account: Address,
    pub venue_pool_reward_token_b_account: Address,
    pub pool_info_account_one: Address,
    pub pool_info_account_two: Address,
    pub pool_info_account_three: Address,
    pub pool_info_account_four: Address,
    pub pool_info_account_five: Address,
}

/// The ordered account list the venue's entry point requires: seventeen
/// entries, order significant, with the pool main account the only signer.
pub open spec fn spec_venue_account_list(va: VenueAccounts) -> Seq<AccountRef> {
    seq![
        AccountRef { address: va.venue_pool_id, writable: true, signer: false },
        AccountRef { address: va.venue_pool_authority, writable: false, signer: false },
        AccountRef { address: va.pool_associated_info_account, writable: true, signer: false },
        AccountRef { address: va.pool_main_account, writable: false, signer: true },
        AccountRef { address: va.pool_lp_account, writable: true, signer: false },
        AccountRef { address: va.venue_pool_lp_account, writable: true, signer: false },
        AccountRef { address: va.pool_reward_token_account, writable: true, signer: false },
        AccountRef { address: va.venue_pool_reward_token_account, writable: true, signer: false },
        AccountRef { address: va.clock, writable: false, signer: false },
        AccountRef { address: va.token_program, writable: false, signer: false },
        AccountRef { address: va.pool_reward_token_b_account, writable: true, signer: false },
        AccountRef { address: va.venue_pool_reward_token_b_account, writable: true, signer: false },
        AccountRef { address: va.pool_info_account_one, writable: true, signer: false },
        AccountRef { address: va.pool_info_account_two, writable: true, signer: false },
        AccountRef { address: va.pool_info_account_three, writable: true, signer: false },
        AccountRef { address: va.pool_info_account_four, writable: true, signer: false },
        AccountRef { address: va.pool_info_account_five, writable: true, signer: false },
    ]
}

/// Builds the venue's ordered account list.
pub fn venue_account_list(va: &VenueAccounts) -> (r: Vec<AccountRef>)
    ensures
        r@ == spec_venue_account_list(*va),
{
    let mut r: Vec<AccountRef> = Vec::new();
    r.push(AccountRef { address: va.venue_pool_id, writable: true, signer: false });
    r.push(AccountRef { address: va.venue_pool_authority, writable: false, signer: false });
    r.push(AccountRef { address: va.pool_associated_info_account, writable: true, signer: false });
    r.push(AccountRef { address: va.pool_main_account, writable: false, signer: true });
    r.push(AccountRef { address: va.pool_lp_account, writable: true, signer: false });
    r.push(AccountRef { address: va.venue_pool_lp_account, writable: true, signer: false });
    r.push(AccountRef { address: va.pool_reward_token_account, writable: true, signer: false });
    r.push(
        AccountRef { address: va.venue_pool_reward_token_account, writable: true, signer: false },
    );
    r.push(AccountRef { address: va.clock, writable: false, signer: false });
    r.push(AccountRef { address: va.token_program, writable: false, signer: false });
    r.push(AccountRef { address: va.pool_reward_token_b_account, writable: true, signer: false });
    r.push(
        AccountRef { address: va.venue_pool_reward_token_b_account, writable: true, signer: false },
    );
    r.push(AccountRef { address: va.pool_info_account_one, writable: true, signer: false });
    r.push(AccountRef { address: va.pool_info_account_two, writable: true, signer: false });
    r.push(AccountRef { address: va.pool_info_account_three, writable: true, signer: false });
    r.push(AccountRef { address: va.pool_info_account_four, writable: true, signer: false });
    r.push(AccountRef { address: va.pool_info_account_five, writable: true, signer: false });
    proof {
        assert(r@ =~= spec_venue_account_list(*va));
    }
    r
}

/// A fully assembled cross-contract call: the callee program, the ordered
/// participant accounts, and the encoded payload.
pub struct InstructionData {
    pub program_id: Address,
    pub accounts: Vec<AccountRef>,
    pub data: Vec<u8>,
}

/// Assembles the venue call for one opcode and amount: the exact payload
/// bytes and the exact ordered account list.
pub fn build_venue_instruction(
    venue_program: &Address,
    va: &VenueAccounts,
    opcode: u8,
    amount: u64,
) -> (r: InstructionData)
    ensures
        r.program_id@ == venue_program@,
        r.accounts@ == spec_venue_account_list(*va),
        r.data@ == stake_payload_bytes(opcode, amount),
{
    let payload = Stake { instruction: opcode, amount };
    let data = match payload.to_vec() {
        Ok(d) => d,
        Err(_) => vstd::pervasive::unreached(),
    };
    InstructionData { program_id: *venue_program, accounts: venue_account_list(va), data }
}

} // verus!
