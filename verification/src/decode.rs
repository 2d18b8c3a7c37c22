//! Trusted decoders for the fixed-layout token and metadata account
//! formats, each a pure function of the account's bytes.

use mpl_token_metadata::accounts::Metadata;
use solana_program::program_option::COption;
use solana_program::program_pack::Pack;
use vstd::prelude::*;

use crate::accounts::{CreatorEntry, MetadataState, MintState, TokenAccountState};
use crate::keys::KeyBytes;

verus! {

/// The token program's identity: the owner of every token-balance and mint
/// account (the base58 form is
/// `TokenkegQfeZyiNwAJbNbGKPFXCWuBvf9Ss623VQ5DA`).
pub const TOKEN_PROGRAM_ID: KeyBytes = [
    6, 221, 246, 225, 215, 101, 161, 147, 217, 203, 225, 70, 206, 235, 121, 172, 28, 180, 133,
    237, 95, 91, 55, 145, 58, 140, 245, 133, 126, 255, 0, 169,
];

/// What a token-balance account's bytes decode to, if they are an
/// initialized account of the fixed layout: a pure function of the bytes
/// alone.
pub uninterp spec fn token_account_of(data: Seq<u8>) -> Option<TokenAccountState>;

/// Relies on `spl_token::state::Account::unpack`: a pure parse of the
/// fixed 165-byte layout that fails on a wrong length or an uninitialized
/// account, here projected onto the fields the engine reads.
#[verifier::external_body]
pub(crate) fn unpack_token_account(data: &Vec<u8>) -> (r: Option<TokenAccountState>)
    ensures
        r == token_account_of(data@),
{
    match spl_token::state::Account::unpack(data) {
        Ok(account) => Some(
            TokenAccountState {
                mint: account.mint.to_bytes(),
                owner: account.owner.to_bytes(),
                amount: account.amount,
            },
        ),
        Err(_) => None,
    }
}

/// What a mint account's bytes decode to, if they are an initialized mint
/// of the fixed layout: a pure function of the bytes alone.
pub uninterp spec fn mint_of(data: Seq<u8>) -> Option<MintState>;

/// Relies on `spl_token::state::Mint::unpack`: a pure parse of the fixed
/// 82-byte layout that fails on a wrong length or an uninitialized mint,
/// here projected onto the fields the engine reads.
#[verifier::external_body]
pub(crate) fn unpack_mint(data: &Vec<u8>) -> (r: Option<MintState>)
    ensures
        r == mint_of(data@),
{
    match spl_token::state::Mint::unpack(data) {
        Ok(mint) => Some(
            MintState {
                mint_authority: match mint.mint_authority {
                    COption::Some(authority) => Some(authority.to_bytes()),
                    COption::None => None,
                },
                supply: mint.supply,
                decimals: mint.decimals,
            },
        ),
        Err(_) => None,
    }
}

/// What a collectible-metadata account's bytes decode to, if they decode
/// at all: a pure function of the bytes alone.
pub uninterp spec fn metadata_of(data: Seq<u8>) -> Option<MetadataState>;

/// Relies on `mpl_token_metadata::accounts::Metadata::from_bytes`: a pure
/// deserialization of the metadata layout, here projected onto the mint,
/// the update authority and the creator entries.
#[verifier::external_body]
pub(crate) fn parse_metadata(data: &Vec<u8>) -> (r: Option<MetadataState>)
    ensures
        r == metadata_of(data@),
{
    let to_entry =
        |c: mpl_token_metadata::types::Creator| CreatorEntry {
            address: c.address.to_bytes(),
            verified: c.verified,
            share: c.share,
        };
    match Metadata::from_bytes(data) {
        Ok(md) => Some(MetadataState {
            update_authority: md.update_authority.to_bytes(),
            mint: md.mint.to_bytes(),
            creators: md.creators.map(|cs| cs.into_iter().map(to_entry).collect()),
        }),
        Err(_) => None,
    }
}

} // verus!
