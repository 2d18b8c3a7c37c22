//! Deterministic derivation of allowance-record addresses.
//!
//! A record's address is a program-derived address computed from a salt
//! constant, the guard's address and the allowance key, so that the engine
//! and any client can recompute it independently, with no lookup table.

use vstd::prelude::*;

use crate::keys::KeyBytes;

verus! {

/// The guard program's own identity, under which allowance records are
/// derived and stored (the base58 form is
/// `tg7bdEQom2SZT1JB2d77RDJFYaL4eZ2FcM8HZZAg5Z8`).
pub const GUARD_PROGRAM_ID: KeyBytes = [
    13, 60, 216, 233, 91, 140, 189, 26, 59, 75, 104, 42, 118, 24, 70, 174, 56, 22, 238, 187, 207,
    246, 106, 183, 183, 48, 149, 87, 82, 98, 236, 127,
];

/// The derivation salt, the ASCII bytes of `token_guard_allowance_account`.
/// Clients must use the same salt to derive the same record addresses.
pub const ALLOWANCE_ACCOUNT_SEED: [u8; 29] = [
    116, 111, 107, 101, 110, 95, 103, 117, 97, 114, 100, 95, 97, 108, 108, 111, 119, 97, 110, 99,
    101, 95, 97, 99, 99, 111, 117, 110, 116,
];

/// The address and bump that the program-derived-address search yields for
/// seeds `[ALLOWANCE_ACCOUNT_SEED, guard, key]` under `GUARD_PROGRAM_ID`: a
/// function of the guard and the key alone, so deriving twice from the same
/// pair always yields the same address.
pub uninterp spec fn allowance_address_of(guard: Seq<u8>, key: Seq<u8>) -> Option<(Seq<u8>, u8)>;

/// Relies on `solana_program::pubkey::Pubkey::try_find_program_address`: a
/// pure search over sha256 candidates, determined by its seed and program-id
/// arguments alone.
#[verifier::external_body]
pub(crate) fn derive_allowance_address(guard: &KeyBytes, key: &KeyBytes) -> (r: Option<(KeyBytes, u8)>)
    ensures
        (match r {
            Some(p) => allowance_address_of(guard@, key@) == Some((p.0@, p.1)),
            None => allowance_address_of(guard@, key@) is None,
        }),
{
    let seeds: &[&[u8]] = &[&ALLOWANCE_ACCOUNT_SEED, guard, key];
    let program = solana_program::pubkey::Pubkey::new_from_array(GUARD_PROGRAM_ID);
    match solana_program::pubkey::Pubkey::try_find_program_address(seeds, &program) {
        Some((address, bump)) => Some((address.to_bytes(), bump)),
        None => None,
    }
}

} // verus!
