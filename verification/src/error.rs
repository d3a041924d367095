use vstd::prelude::*;

verus! {

/// Failure classification for ledger operations. None of these is recovered
/// locally: any error aborts the whole invocation, and the atomicity guarantee
/// of the surrounding transaction ensures no partial mutation persists.
#[derive(Clone, Copy, Debug, PartialEq, Eq, Structural)]
pub enum LedgerError {
    /// A claimed authority could not be proven for the account's owner.
    AuthorizationMismatch,
    /// A supplied derived address does not match recomputation from its seeds.
    InvalidDerivedAddress,
    /// A source balance is below the requested amount.
    InsufficientFunds,
    /// A ledger counter would exceed its representable range.
    ArithmeticOverflow,
    /// A ledger counter would go below zero.
    ArithmeticUnderflow,
    /// The external venue rejected or aborted the cross-contract call.
    CrossContractCallFailure,
    /// A call payload could not be encoded or decoded.
    InvalidInstructionData,
}

} // verus!
