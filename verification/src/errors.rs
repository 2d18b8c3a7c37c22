//! The failure taxonomy of the guard engine.
//!
//! Policy violations (`NotLiveYet`, `MaxAmountExceeded`, `AllowanceExceeded`,
//! `TokenAccountNotEphemeral`) are expected, user-facing and non-retryable
//! without changing the request. `CredentialInvalid` propagates the delegated
//! credential verifier's refusal. Membership failures (`NoMembershipToken`,
//! `MembershipTokenMismatch`, `InvalidStrategy`,
//! `UnverifiedMembershipTokenCreator`) report a configuration or proof
//! mismatch. `TokenTransferFailed` reports a failed external settlement call,
//! possibly after the allowance was already consumed. The account-schema
//! failures (`IncorrectOwner`, `Uninitialized`, `MintMismatch`,
//! `MintAuthorityMismatch`, `DerivationMismatch`) reject malformed or
//! misplaced accounts at the storage boundary.

use vstd::prelude::*;

verus! {

/// Every failure the guard can report.
#[derive(Clone, Copy, Debug, PartialEq, Eq, Structural)]
pub enum ErrorCode {
    /// An account is owned by the wrong program.
    IncorrectOwner,
    /// An account's data does not decode to an initialized record.
    Uninitialized,
    /// A token account is for the wrong mint.
    MintMismatch,
    /// The issuance mint's authority is not the expected derived authority.
    MintAuthorityMismatch,
    /// The payer holds fewer tokens than the exchange needs.
    NotEnoughTokens,
    /// The payer holds fewer lamports than the exchange needs.
    NotEnoughSOL,
    /// The external transfer or issuance call failed.
    TokenTransferFailed,
    /// The guard's start time lies in the future.
    NotLiveYet,
    /// The payer's destination token account still carries lamports.
    TokenAccountNotEphemeral,
    /// The allowance for this key is used up.
    AllowanceExceeded,
    /// The requested amount exceeds the guard's ceiling.
    MaxAmountExceeded,
    /// The presented membership token does not match the required one.
    MembershipTokenMismatch,
    /// The membership token is missing or its balance is zero.
    NoMembershipToken,
    /// The strategy needs a configured membership token and none is set.
    InvalidStrategy,
    /// The membership credential's first creator entry is not verified.
    UnverifiedMembershipTokenCreator,
    /// The credential proof was rejected by the verifier.
    CredentialInvalid,
    /// The supplied allowance record derivation proof does not match the
    /// deterministically derived address.
    DerivationMismatch,
}

} // verus!
