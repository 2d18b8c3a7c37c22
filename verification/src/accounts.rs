//! Plain-value models of the account states the engine reads: a raw account
//! as the host hands it over, and the decoded token-account, mint, credential
//! and collectible-metadata records.

use vstd::prelude::*;

use crate::keys::KeyBytes;

verus! {

/// An account as the host presents it: its address, the program that owns
/// it, its lamport balance and its raw data bytes.
pub struct RawAccount {
    /// The account's address.
    pub key: KeyBytes,
    /// The program that owns the account.
    pub owner: KeyBytes,
    /// The account's native (lamport) balance.
    pub lamports: u64,
    /// The account's data bytes.
    pub data: Vec<u8>,
}

/// The decoded state of an initialized token-balance account.
pub struct TokenAccountState {
    /// The mint this balance is denominated in.
    pub mint: KeyBytes,
    /// The wallet that owns the balance.
    pub owner: KeyBytes,
    /// The token balance.
    pub amount: u64,
}

/// The decoded state of an initialized token mint.
pub struct MintState {
    /// The authority allowed to issue new tokens, if any remains.
    pub mint_authority: Option<KeyBytes>,
    /// Total number of tokens issued.
    pub supply: u64,
    /// Decimal places of the token.
    pub decimals: u8,
}

/// The lifecycle state of a credential token.
#[derive(Clone, Copy, Debug, PartialEq, Eq, Structural)]
pub enum CredentialTokenState {
    /// Valid, usable credential.
    Active,
    /// Temporarily paused credential.
    Frozen,
    /// Permanently withdrawn credential.
    Revoked,
}

/// The decoded state of a credential (gateway) token.
pub struct CredentialState {
    /// The wallet the credential was issued to.
    pub owner_wallet: KeyBytes,
    /// The credential network that issued it.
    pub gatekeeper_network: KeyBytes,
    /// Its lifecycle state.
    pub state: CredentialTokenState,
    /// When it expires, if it does.
    pub expire_time: Option<i64>,
}

/// One creator entry of a collectible's metadata record.
pub struct CreatorEntry {
    /// The creator's identity.
    pub address: KeyBytes,
    /// Whether the metadata program has verified this entry's signature.
    pub verified: bool,
    /// The creator's royalty share, in percent.
    pub share: u8,
}

/// The decoded state of a collectible's metadata record.
pub struct MetadataState {
    /// The identity allowed to update the record.
    pub update_authority: KeyBytes,
    /// The mint the record describes.
    pub mint: KeyBytes,
    /// The declared creators, if any were declared.
    pub creators: Option<Vec<CreatorEntry>>,
}

} // verus!
