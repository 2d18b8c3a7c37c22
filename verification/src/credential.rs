//! The credential check: the payer must present a gateway token issued to
//! them by the guard's configured gatekeeper network.
//!
//! Parsing the token account's bytes is delegated to the gateway crate
//! behind a trusted declaration; the verdict over the parsed state — the
//! owning program, the holder, the network, the lifecycle state and the
//! expiry — is verified here, against the same clock value the liveness
//! check uses.

use solana_gateway::state::{GatewayToken, GatewayTokenState};
use vstd::prelude::*;

use crate::accounts::{CredentialState, CredentialTokenState};
use crate::errors::ErrorCode;
use crate::keys::{key_eq, KeyBytes};

verus! {

/// The gateway program's identity: only accounts it owns can hold
/// credentials (the base58 form is
/// `gatem74V238djXdzWnJf94Wo1DcnuGkfijbf3AuBhfs`).
pub const GATEWAY_PROGRAM_ID: KeyBytes = [
    10, 35, 248, 193, 156, 10, 77, 255, 245, 245, 47, 38, 174, 200, 84, 58, 98, 42, 12, 197, 198,
    30, 81, 25, 62, 157, 73, 19, 220, 196, 171, 94,
];

/// What the gateway token account's bytes decode to, if they decode at
/// all: a pure function of the bytes alone.
pub uninterp spec fn gateway_token_of(data: Seq<u8>) -> Option<CredentialState>;

/// Relies on `solana_gateway::program_borsh::try_from_slice_incomplete`
/// deserializing a `solana_gateway::state::GatewayToken`: a pure parse of
/// the account bytes, here projected onto the fields the verdict reads.
#[verifier::external_body]
pub(crate) fn parse_gateway_token(data: &Vec<u8>) -> (r: Option<CredentialState>)
    ensures
        r == gateway_token_of(data@),
{
    match solana_gateway::program_borsh::try_from_slice_incomplete::<GatewayToken>(data) {
        Ok(token) => Some(CredentialState {
            owner_wallet: token.owner_wallet.to_bytes(),
            gatekeeper_network: token.gatekeeper_network.to_bytes(),
            state: match token.state {
                GatewayTokenState::Active => CredentialTokenState::Active,
                GatewayTokenState::Frozen => CredentialTokenState::Frozen,
                GatewayTokenState::Revoked => CredentialTokenState::Revoked,
            },
            expire_time: token.expire_time,
        }),
        Err(_) => None,
    }
}

/// Whether a credential expiring at `expire_time` has expired by `now`:
/// a credential without an expiry never expires.
pub open spec fn credential_expired(expire_time: Option<i64>, now: i64) -> bool {
    match expire_time {
        Some(t) => now > t,
        None => false,
    }
}

/// The rule for accepting a credential: the holding account belongs to the
/// gateway program, its bytes decode to a credential naming the payer as its
/// wallet and the guard's gatekeeper network, and the credential must be
/// active and not past its expiry at `now`. Every failure is reported as
/// `CredentialInvalid`.
pub open spec fn credential_verdict(
    account_owner: Seq<u8>,
    credential: Option<CredentialState>,
    payer: Seq<u8>,
    network: Seq<u8>,
    now: i64,
) -> Result<(), ErrorCode> {
    if account_owner != GATEWAY_PROGRAM_ID@ {
        Err(ErrorCode::CredentialInvalid)
    } else {
        match credential {
            None => Err(ErrorCode::CredentialInvalid),
            Some(c) => {
                if c.owner_wallet@ != payer {
                    Err(ErrorCode::CredentialInvalid)
                } else if c.gatekeeper_network@ != network {
                    Err(ErrorCode::CredentialInvalid)
                } else if c.state != CredentialTokenState::Active {
                    Err(ErrorCode::CredentialInvalid)
                } else if credential_expired(c.expire_time, now) {
                    Err(ErrorCode::CredentialInvalid)
                } else {
                    Ok(())
                }
            },
        }
    }
}

/// Checks a decoded credential against the payer, the configured network
/// and the clock, as `credential_verdict` states.
pub fn check_credential(
    account_owner: &KeyBytes,
    credential: &Option<CredentialState>,
    payer: &KeyBytes,
    network: &KeyBytes,
    now: i64,
) -> (r: Result<(), ErrorCode>)
    ensures
        r == credential_verdict(account_owner@, *credential, payer@, network@, now),
{
    if !key_eq(account_owner, &GATEWAY_PROGRAM_ID) {
        return Err(ErrorCode::CredentialInvalid);
    }
    match credential {
        None => Err(ErrorCode::CredentialInvalid),
        Some(c) => {
            if !key_eq(&c.owner_wallet, payer) {
                Err(ErrorCode::CredentialInvalid)
            } else if !key_eq(&c.gatekeeper_network, network) {
                Err(ErrorCode::CredentialInvalid)
            } else if !matches!(c.state, CredentialTokenState::Active) {
                Err(ErrorCode::CredentialInvalid)
            } else {
                match c.expire_time {
                    Some(t) => {
                        if now > t {
                            Err(ErrorCode::CredentialInvalid)
                        } else {
                            Ok(())
                        }
                    },
                    None => Ok(()),
                }
            }
        },
    }
}

/// Parses the presented gateway token account and checks it against the
/// payer, the guard's gatekeeper network and the clock, as
/// `credential_verdict` states over what the bytes decode to.
pub fn check_gateway_token(
    gateway_token: &crate::accounts::RawAccount,
    payer: &KeyBytes,
    token_guard: &crate::config::TokenGuard,
    now: i64,
) -> (r: Result<(), ErrorCode>)
    ensures
        r == credential_verdict(
            gateway_token.owner@,
            gateway_token_of(gateway_token.data@),
            payer@,
            token_guard.gatekeeper_network@,
            now,
        ),
{
    let credential = parse_gateway_token(&gateway_token.data);
    check_credential(&gateway_token.owner, &credential, payer, &token_guard.gatekeeper_network, now)
}

} // verus!
