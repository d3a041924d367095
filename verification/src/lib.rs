//! State-transition logic of a collateralized-debt ledger: users lock an
//! approved collateral asset into a per-user position, and deposited
//! collateral is forwarded into an external yield venue's pool, with accrued
//! rewards harvested and swept back to the user in the same operation.

pub mod address;
pub mod bridge;
pub mod error;
pub mod payload;
pub mod protocol;
pub mod state;
pub mod token;

pub use address::Address;
pub use address::DomainTag;
pub use address::address_eq;
pub use address::derive_address;
pub use address::verify_address;
pub use bridge::AccountRef;
pub use bridge::InstructionData;
pub use bridge::STAKE_OPCODE;
pub use bridge::UNSTAKE_OPCODE;
pub use bridge::VenueAccounts;
pub use bridge::build_venue_instruction;
pub use bridge::venue_account_list;
pub use error::LedgerError;
pub use payload::Stake;
pub use payload::STAKE_LEN;
pub use protocol::OperationReceipt;
pub use protocol::VenueOutcome;
pub use protocol::process_deposit_collateral;
pub use protocol::process_withdraw_collateral;
pub use state::GlobalState;
pub use state::TokenVault;
pub use state::UserTrove;
pub use token::TOKEN_AMOUNT_OFFSET;
pub use token::TokenAccount;
pub use token::get_token_balance;
pub use token::harvest_and_sweep;
pub use token::transfer;
