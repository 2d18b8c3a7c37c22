//! The membership verifier: a strategy-dispatched check that the payer
//! holds a qualifying balance or a qualifying collectible credential.

use vstd::prelude::*;

use crate::accounts::{MetadataState, TokenAccountState};
use crate::config::{Strategy, TokenGuard};
use crate::errors::ErrorCode;
use crate::keys::{key_eq, KeyBytes};

verus! {

/// The membership evidence attached to an exchange, each part optional: a
/// decoded token account holding the claimed balance, the token-type
/// (mint) identifier the collectible claims, and the mint's decoded
/// metadata record.
pub struct MembershipProof {
    /// The payer's account holding the membership token, used by the
    /// fungible strategy.
    pub token_account: Option<TokenAccountState>,
    /// The token-type identifier: the membership mint's address. Also ties
    /// the allowance counter to the collectible instead of the wallet.
    pub token_mint: Option<KeyBytes>,
    /// The mint's metadata record, used by the collectible strategies.
    pub metadata: Option<MetadataState>,
}

impl MembershipProof {
    /// Evidence with no part presented.
    pub fn empty() -> (r: MembershipProof)
        ensures
            r.token_account is None,
            r.token_mint is None,
            r.metadata is None,
    {
        MembershipProof { token_account: None, token_mint: None, metadata: None }
    }
}

/// The collectible-metadata check: the record must describe the presented
/// mint, and must tie the collectible to the configured key — as its update
/// authority, or as its first, verified creator.
///
/// Requiring the first creator entry's `verified` flag is what stops a
/// payer from minting their own collectible and merely claiming the
/// required creator: only the metadata program sets that flag, on the
/// creator's own signature.
pub open spec fn nft_metadata_verdict(
    metadata: MetadataState,
    token_mint: Seq<u8>,
    membership_token: Option<KeyBytes>,
    strategy: Strategy,
) -> Result<(), ErrorCode> {
    if metadata.mint@ != token_mint {
        Err(ErrorCode::MembershipTokenMismatch)
    } else {
        match strategy {
            Strategy::MembershipNftUpdateAuthority => match membership_token {
                None => Err(ErrorCode::InvalidStrategy),
                Some(key) => if metadata.update_authority@ == key@ {
                    Ok(())
                } else {
                    Err(ErrorCode::MembershipTokenMismatch)
                },
            },
            Strategy::MembershipNftCreator => match membership_token {
                None => Err(ErrorCode::InvalidStrategy),
                Some(key) => match metadata.creators {
                    None => Err(ErrorCode::MembershipTokenMismatch),
                    Some(creators) => if creators@.len() == 0 {
                        Err(ErrorCode::MembershipTokenMismatch)
                    } else if creators@[0].address@ != key@ {
                        Err(ErrorCode::MembershipTokenMismatch)
                    } else if !creators@[0].verified {
                        Err(ErrorCode::UnverifiedMembershipTokenCreator)
                    } else {
                        Ok(())
                    },
                },
            },
            _ => Ok(()),
        }
    }
}

/// Checks a collectible's metadata record against the guard, as
/// `nft_metadata_verdict` states.
pub fn check_nft_metadata(
    metadata: &MetadataState,
    token_mint: &KeyBytes,
    token_guard: &TokenGuard,
) -> (r: Result<(), ErrorCode>)
    ensures
        r == nft_metadata_verdict(
            *metadata,
            token_mint@,
            token_guard.membership_token,
            token_guard.strategy,
        ),
{
    if !key_eq(&metadata.mint, token_mint) {
        return Err(ErrorCode::MembershipTokenMismatch);
    }
    match token_guard.strategy {
        Strategy::MembershipNftUpdateAuthority => match &token_guard.membership_token {
            None => Err(ErrorCode::InvalidStrategy),
            Some(key) => {
                if key_eq(&metadata.update_authority, key) {
                    Ok(())
                } else {
                    Err(ErrorCode::MembershipTokenMismatch)
                }
            },
        },
        Strategy::MembershipNftCreator => match &token_guard.membership_token {
            None => Err(ErrorCode::InvalidStrategy),
            Some(key) => match &metadata.creators {
                None => Err(ErrorCode::MembershipTokenMismatch),
                Some(creators) => {
                    if creators.len() == 0 {
                        Err(ErrorCode::MembershipTokenMismatch)
                    } else if !key_eq(&creators[0].address, key) {
                        Err(ErrorCode::MembershipTokenMismatch)
                    } else if !creators[0].verified {
                        Err(ErrorCode::UnverifiedMembershipTokenCreator)
                    } else {
                        Ok(())
                    }
                },
            },
        },
        _ => Ok(()),
    }
}

/// The whole membership check, dispatched on the strategy.
///
/// `GatewayOnly` asks for nothing. Every other strategy needs a configured
/// membership token (else `InvalidStrategy`). The fungible strategy then
/// needs a presented token account holding a positive balance of exactly
/// the configured mint; the collectible strategies need the presented
/// token-type identifier and its metadata record (absent either, the proof
/// shows no membership token), held to the metadata check.
pub open spec fn membership_verdict(
    strategy: Strategy,
    membership_token: Option<KeyBytes>,
    evidence: MembershipProof,
) -> Result<(), ErrorCode> {
    match strategy {
        Strategy::GatewayOnly => Ok(()),
        _ => {
            if membership_token is None {
                Err(ErrorCode::InvalidStrategy)
            } else {
                match strategy {
                    Strategy::MembershipSPLToken => match evidence.token_account {
                        None => Err(ErrorCode::NoMembershipToken),
                        Some(ta) => {
                            if ta.mint@ != membership_token->0@ {
                                Err(ErrorCode::MembershipTokenMismatch)
                            } else if ta.amount == 0 {
                                Err(ErrorCode::NoMembershipToken)
                            } else {
                                Ok(())
                            }
                        },
                    },
                    _ => match (evidence.token_mint, evidence.metadata) {
                        (Some(token_mint), Some(metadata)) => nft_metadata_verdict(
                            metadata,
                            token_mint@,
                            membership_token,
                            strategy,
                        ),
                        _ => Err(ErrorCode::NoMembershipToken),
                    },
                }
            }
        },
    }
}

/// Checks the presented membership evidence against the guard's strategy,
/// as `membership_verdict` states.
pub fn check_membership_token(token_guard: &TokenGuard, evidence: &MembershipProof) -> (r: Result<
    (),
    ErrorCode,
>)
    ensures
        r == membership_verdict(token_guard.strategy, token_guard.membership_token, *evidence),
{
    match token_guard.strategy {
        Strategy::GatewayOnly => Ok(()),
        _ => {
            match &token_guard.membership_token {
                None => Err(ErrorCode::InvalidStrategy),
                Some(key) => match token_guard.strategy {
                    Strategy::MembershipSPLToken => match &evidence.token_account {
                        None => Err(ErrorCode::NoMembershipToken),
                        Some(ta) => {
                            if !key_eq(&ta.mint, key) {
                                Err(ErrorCode::MembershipTokenMismatch)
                            } else if ta.amount == 0 {
                                Err(ErrorCode::NoMembershipToken)
                            } else {
                                Ok(())
                            }
                        },
                    },
                    _ => match (&evidence.token_mint, &evidence.metadata) {
                        (Some(token_mint), Some(metadata)) => check_nft_metadata(
                            metadata,
                            token_mint,
                            token_guard,
                        ),
                        _ => Err(ErrorCode::NoMembershipToken),
                    },
                },
            }
        },
    }
}

} // verus!
