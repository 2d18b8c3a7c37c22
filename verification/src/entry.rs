//! The guard's account-level surface: `initialize`, which validates the
//! issuance mint and stores the configuration, and `exchange`, which runs
//! the policy chain directly on the accounts a caller presents, decoding
//! each one exactly where the chain reads it.

use vstd::prelude::*;

use crate::accounts::{MintState, RawAccount};
use crate::config::{Strategy, TokenGuard};
use crate::credential::{check_gateway_token, credential_verdict, gateway_token_of};
use crate::decode::{metadata_of, mint_of, parse_metadata, token_account_of, unpack_mint, unpack_token_account, TOKEN_PROGRAM_ID};
use crate::errors::ErrorCode;
use crate::keys::{key_eq, KeyBytes};
use crate::ledger::{allowance_step, check_and_update_allowance, derivation_matches, LedgerStore};
use crate::membership::{check_membership_token, membership_verdict, MembershipProof};
use crate::policy::{check_balance, check_max_amount, check_payer_token_account, check_start_time, exchange_verdict, max_amount_ok, payer_account_verdict, start_time_ok, ExchangeRequest, Settlement};

verus! {

/// Rejects an account owned by the wrong program.
pub fn assert_owned_by(account_owner: &KeyBytes, owner: &KeyBytes) -> (r: Result<(), ErrorCode>)
    ensures
        r == (if account_owner@ == owner@ {
            Result::<(), ErrorCode>::Ok(())
        } else {
            Result::<(), ErrorCode>::Err(ErrorCode::IncorrectOwner)
        }),
{
    if key_eq(account_owner, owner) {
        Ok(())
    } else {
        Err(ErrorCode::IncorrectOwner)
    }
}

/// The mint-authority check: the guard can only issue from a mint whose
/// remaining authority is exactly the guard's derived issuing identity.
pub open spec fn mint_authority_verdict(mint: MintState, mint_authority: Seq<u8>) -> Result<
    (),
    ErrorCode,
> {
    match mint.mint_authority {
        None => Err(ErrorCode::MintAuthorityMismatch),
        Some(authority) => if authority@ == mint_authority {
            Ok(())
        } else {
            Err(ErrorCode::MintAuthorityMismatch)
        },
    }
}

/// Checks a decoded mint's authority, as `mint_authority_verdict` states.
pub fn check_mint_authority(mint_authority: &KeyBytes, token_mint: &MintState) -> (r: Result<
    (),
    ErrorCode,
>)
    ensures
        r == mint_authority_verdict(*token_mint, mint_authority@),
{
    match &token_mint.mint_authority {
        None => Err(ErrorCode::MintAuthorityMismatch),
        Some(authority) => {
            if key_eq(authority, mint_authority) {
                Ok(())
            } else {
                Err(ErrorCode::MintAuthorityMismatch)
            }
        },
    }
}

/// The issuance-mint check at initialization: the account must decode to
/// an initialized mint, belong to the token program, and name the guard's
/// derived identity as its authority.
pub open spec fn out_mint_verdict(out_mint: RawAccount, mint_authority: Seq<u8>) -> Result<
    (),
    ErrorCode,
> {
    match mint_of(out_mint.data@) {
        None => Err(ErrorCode::Uninitialized),
        Some(mint) => {
            if out_mint.owner@ != TOKEN_PROGRAM_ID@ {
                Err(ErrorCode::IncorrectOwner)
            } else {
                mint_authority_verdict(mint, mint_authority)
            }
        },
    }
}

/// Checks the issuance mint account, as `out_mint_verdict` states.
pub fn check_out_mint(out_mint: &RawAccount, mint_authority: &KeyBytes) -> (r: Result<
    (),
    ErrorCode,
>)
    ensures
        r == out_mint_verdict(*out_mint, mint_authority@),
{
    let token_mint = match unpack_mint(&out_mint.data) {
        Some(mint) => mint,
        None => {
            return Err(ErrorCode::Uninitialized);
        },
    };
    assert_owned_by(&out_mint.owner, &TOKEN_PROGRAM_ID)?;
    check_mint_authority(mint_authority, &token_mint)?;
    Ok(())
}

/// The accounts `initialize` consumes.
pub struct Initialize {
    /// The identity creating the guard.
    pub authority: KeyBytes,
    /// The identity that will receive transferred lamports.
    pub recipient: KeyBytes,
    /// The mint the guard will issue from.
    pub out_mint: RawAccount,
    /// The guard's derived issuing identity.
    pub mint_authority: KeyBytes,
}

/// The configuration record `initialize` produces when the issuance mint
/// passes its checks and the strategy byte names a known strategy.
pub open spec fn initialized_guard(
    accounts: Initialize,
    mint_authority_bump: u8,
    gatekeeper_network: KeyBytes,
    start_time: Option<i64>,
    allowance: Option<u8>,
    max_amount: Option<u64>,
    membership_token: Option<KeyBytes>,
    strategy: Strategy,
) -> TokenGuard {
    TokenGuard {
        authority: accounts.authority,
        recipient: accounts.recipient,
        gatekeeper_network,
        membership_token,
        out_mint: accounts.out_mint.key,
        mint_authority_bump,
        start_time,
        allowance: (match allowance {
            Some(a) => a,
            None => 0u8,
        }),
        max_amount,
        strategy,
    }
}

/// Creates a guard: validates the issuance mint, resolves the strategy
/// byte against the closed strategy set, and stores the configuration,
/// encoding an absent allowance as zero.
pub fn initialize(
    accounts: &Initialize,
    mint_authority_bump: u8,
    gatekeeper_network: KeyBytes,
    start_time: Option<i64>,
    allowance: Option<u8>,
    max_amount: Option<u64>,
    membership_token: Option<KeyBytes>,
    strategy: u8,
) -> (r: Result<TokenGuard, ErrorCode>)
    ensures
        r == ({
            match out_mint_verdict(accounts.out_mint, accounts.mint_authority@) {
                Err(e) => Result::<TokenGuard, ErrorCode>::Err(e),
                Ok(()) => match Strategy::spec_from_u8(strategy) {
                    None => Err(ErrorCode::InvalidStrategy),
                    Some(s) => Ok(
                        initialized_guard(
                            *accounts,
                            mint_authority_bump,
                            gatekeeper_network,
                            start_time,
                            allowance,
                            max_amount,
                            membership_token,
                            s,
                        ),
                    ),
                },
            }
        }),
{
    check_out_mint(&accounts.out_mint, &accounts.mint_authority)?;
    let resolved = match Strategy::from_u8(strategy) {
        Some(s) => s,
        None => {
            return Err(ErrorCode::InvalidStrategy);
        },
    };
    let mut token_guard = TokenGuard {
        authority: accounts.authority,
        recipient: accounts.recipient,
        gatekeeper_network,
        membership_token,
        out_mint: accounts.out_mint.key,
        mint_authority_bump: 0,
        start_time: None,
        allowance: 0,
        max_amount: None,
        strategy: Strategy::GatewayOnly,
    };
    token_guard.set_properties(mint_authority_bump, start_time, allowance, max_amount, resolved);
    Ok(token_guard)
}

/// The accounts `exchange` consumes. The last three mirror the optional
/// membership triple a caller may attach: the membership token account,
/// the membership mint (only its address matters), and the mint's
/// metadata account.
pub struct Exchange {
    /// The address the guard's configuration is stored under; the
    /// allowance derivation is salted with it.
    pub token_guard_key: KeyBytes,
    /// The paying identity.
    pub payer: KeyBytes,
    /// The payer's native balance.
    pub payer_lamports: u64,
    /// The payer's destination token account.
    pub payer_ata: RawAccount,
    /// The payer's credential (gateway token) account.
    pub gateway_token: RawAccount,
    /// The account holding the payer's membership tokens, if presented.
    pub membership_token: Option<RawAccount>,
    /// The membership mint's address, if presented.
    pub membership_token_mint: Option<KeyBytes>,
    /// The membership mint's metadata account, if presented.
    pub membership_token_metadata: Option<RawAccount>,
    /// The caller-derived address for the allowance record.
    pub allowance_account_key: KeyBytes,
}

/// The allowance key of an account-level request: the membership mint's
/// address when one is presented, the payer's identity otherwise.
pub open spec fn accounts_allowance_key(accounts: Exchange) -> KeyBytes {
    match accounts.membership_token_mint {
        Some(mint) => mint,
        None => accounts.payer,
    }
}

/// The membership evidence assembled from the presented accounts, each
/// decoded exactly when the strategy reads it: the fungible strategy
/// decodes the token account, the collectible strategies decode the
/// metadata record, and the credential-only strategy decodes nothing. An
/// account that is presented but does not decode is `Uninitialized`.
pub open spec fn assembled_membership(
    strategy: Strategy,
    membership_token: Option<RawAccount>,
    membership_token_mint: Option<KeyBytes>,
    membership_token_metadata: Option<RawAccount>,
) -> Result<MembershipProof, ErrorCode> {
    match strategy {
        Strategy::MembershipSPLToken => match membership_token {
            None => Ok(
                (MembershipProof {
                    token_account: None,
                    token_mint: membership_token_mint,
                    metadata: None,
                }),
            ),
            Some(account) => match token_account_of(account.data@) {
                None => Err(ErrorCode::Uninitialized),
                Some(state) => Ok(
                    (MembershipProof {
                        token_account: Some(state),
                        token_mint: membership_token_mint,
                        metadata: None,
                    }),
                ),
            },
        },
        Strategy::MembershipNftUpdateAuthority | Strategy::MembershipNftCreator => match membership_token_metadata {
            None => Ok(
                (MembershipProof {
                    token_account: None,
                    token_mint: membership_token_mint,
                    metadata: None,
                }),
            ),
            Some(account) => match metadata_of(account.data@) {
                None => Err(ErrorCode::Uninitialized),
                Some(metadata) => Ok(
                    (MembershipProof {
                        token_account: None,
                        token_mint: membership_token_mint,
                        metadata: Some(metadata),
                    }),
                ),
            },
        },
        Strategy::GatewayOnly => Ok(
            (MembershipProof {
                token_account: None,
                token_mint: membership_token_mint,
                metadata: None,
            }),
        ),
    }
}

/// Assembles the membership evidence, as `assembled_membership` states.
fn assemble_membership(
    strategy: Strategy,
    membership_token: &Option<RawAccount>,
    membership_token_mint: &Option<KeyBytes>,
    membership_token_metadata: &Option<RawAccount>,
) -> (r: Result<MembershipProof, ErrorCode>)
    ensures
        r == assembled_membership(
            strategy,
            *membership_token,
            *membership_token_mint,
            *membership_token_metadata,
        ),
{
    match strategy {
        Strategy::MembershipSPLToken => match membership_token {
            None => Ok(
                MembershipProof {
                    token_account: None,
                    token_mint: *membership_token_mint,
                    metadata: None,
                },
            ),
            Some(account) => match unpack_token_account(&account.data) {
                None => Err(ErrorCode::Uninitialized),
                Some(state) => Ok(
                    MembershipProof {
                        token_account: Some(state),
                        token_mint: *membership_token_mint,
                        metadata: None,
                    },
                ),
            },
        },
        Strategy::MembershipNftUpdateAuthority | Strategy::MembershipNftCreator => match membership_token_metadata {
            None => Ok(
                MembershipProof {
                    token_account: None,
                    token_mint: *membership_token_mint,
                    metadata: None,
                },
            ),
            Some(account) => match parse_metadata(&account.data) {
                None => Err(ErrorCode::Uninitialized),
                Some(metadata) => Ok(
                    MembershipProof {
                        token_account: None,
                        token_mint: *membership_token_mint,
                        metadata: Some(metadata),
                    },
                ),
            },
        },
        Strategy::GatewayOnly => Ok(
            MembershipProof {
                token_account: None,
                token_mint: *membership_token_mint,
                metadata: None,
            },
        ),
    }
}

/// The settlement an authorized account-level exchange instructs.
pub open spec fn accounts_settlement(
    token_guard: TokenGuard,
    accounts: Exchange,
    lamports: u64,
) -> Settlement {
    Settlement {
        transfer_from: accounts.payer,
        transfer_to: token_guard.recipient,
        transfer_lamports: lamports,
        mint: token_guard.out_mint,
        destination: accounts.payer_ata.key,
        mint_amount: lamports,
        mint_authority_bump: token_guard.mint_authority_bump,
    }
}

/// The whole account-level policy decision: the ordered chain of checks
/// over the presented accounts, decoding each account exactly where the
/// chain reads it, with the allowance consumed before the membership check
/// — so a request refused for membership leaves the allowance spent.
pub open spec fn exchange_accounts_verdict(
    token_guard: TokenGuard,
    accounts: Exchange,
    lamports: u64,
    allowance_account_bump: u8,
    now: i64,
    l: Seq<(Seq<u8>, u8)>,
) -> (Result<Settlement, ErrorCode>, Seq<(Seq<u8>, u8)>) {
    if !start_time_ok(token_guard.start_time, now) {
        (Err(ErrorCode::NotLiveYet), l)
    } else if !max_amount_ok(token_guard.max_amount, lamports) {
        (Err(ErrorCode::MaxAmountExceeded), l)
    } else if credential_verdict(
        accounts.gateway_token.owner@,
        gateway_token_of(accounts.gateway_token.data@),
        accounts.payer@,
        token_guard.gatekeeper_network@,
        now,
    ) is Err {
        (Err(ErrorCode::CredentialInvalid), l)
    } else if accounts.payer_lamports < lamports {
        (Err(ErrorCode::NotEnoughSOL), l)
    } else {
        match token_account_of(accounts.payer_ata.data@) {
            None => (Err(ErrorCode::Uninitialized), l),
            Some(ata) => match payer_account_verdict(
                ata,
                accounts.payer_ata.lamports,
                token_guard.out_mint,
            ) {
                Err(e) => (Err(e), l),
                Ok(()) => {
                    let step = allowance_step(
                        l,
                        accounts.allowance_account_key@,
                        derivation_matches(
                            accounts.token_guard_key@,
                            accounts_allowance_key(accounts)@,
                            accounts.allowance_account_key@,
                            allowance_account_bump,
                        ),
                        token_guard.allowance,
                    );
                    match step.0 {
                        Err(e) => (Err(e), l),
                        Ok(()) => match assembled_membership(
                            token_guard.strategy,
                            accounts.membership_token,
                            accounts.membership_token_mint,
                            accounts.membership_token_metadata,
                        ) {
                            Err(e) => (Err(e), step.1),
                            Ok(evidence) => match membership_verdict(
                                token_guard.strategy,
                                token_guard.membership_token,
                                evidence,
                            ) {
                                Err(e) => (Err(e), step.1),
                                Ok(()) => (
                                    Ok(accounts_settlement(token_guard, accounts, lamports)),
                                    step.1,
                                ),
                            },
                        },
                    }
                },
            },
        }
    }
}

/// The decoded request that a set of presented accounts stands for, given
/// what its token account decodes to and what membership evidence it
/// assembles.
pub open spec fn decoded_request(
    accounts: Exchange,
    lamports: u64,
    allowance_account_bump: u8,
    payer_ata: crate::accounts::TokenAccountState,
    evidence: MembershipProof,
) -> ExchangeRequest {
    ExchangeRequest {
        lamports,
        payer: accounts.payer,
        payer_lamports: accounts.payer_lamports,
        payer_ata_key: accounts.payer_ata.key,
        payer_ata,
        payer_ata_lamports: accounts.payer_ata.lamports,
        credential_owner: accounts.gateway_token.owner,
        credential: gateway_token_of(accounts.gateway_token.data@),
        membership: evidence,
        allowance_account_key: accounts.allowance_account_key,
        allowance_account_bump,
    }
}

/// The two faces of the engine agree: when the destination token account
/// decodes and the membership evidence assembles, the account-level chain
/// decides exactly as the decoded-level chain does on the request the
/// accounts stand for.
pub proof fn lemma_account_level_agrees(
    token_guard: TokenGuard,
    accounts: Exchange,
    lamports: u64,
    allowance_account_bump: u8,
    now: i64,
    l: Seq<(Seq<u8>, u8)>,
)
    requires
        token_account_of(accounts.payer_ata.data@) is Some,
        assembled_membership(
            token_guard.strategy,
            accounts.membership_token,
            accounts.membership_token_mint,
            accounts.membership_token_metadata,
        ) is Ok,
    ensures
        ({
            let request = decoded_request(
                accounts,
                lamports,
                allowance_account_bump,
                token_account_of(accounts.payer_ata.data@)->0,
                assembled_membership(
                    token_guard.strategy,
                    accounts.membership_token,
                    accounts.membership_token_mint,
                    accounts.membership_token_metadata,
                )->Ok_0,
            );
            exchange_accounts_verdict(token_guard, accounts, lamports, allowance_account_bump, now, l)
                == exchange_verdict(token_guard, accounts.token_guard_key, request, now, l)
        }),
{
    let evidence = assembled_membership(
        token_guard.strategy,
        accounts.membership_token,
        accounts.membership_token_mint,
        accounts.membership_token_metadata,
    )->Ok_0;
    assert(evidence.token_mint == accounts.membership_token_mint);
}

/// Runs the policy chain on the presented accounts, as
/// `exchange_accounts_verdict` states, and returns the settlement the
/// caller must perform.
pub fn exchange(
    token_guard: &TokenGuard,
    store: &mut LedgerStore,
    accounts: &Exchange,
    lamports: u64,
    allowance_account_bump: u8,
    now: i64,
) -> (r: Result<Settlement, ErrorCode>)
    ensures
        ({
            let v = exchange_accounts_verdict(
                *token_guard,
                *accounts,
                lamports,
                allowance_account_bump,
                now,
                old(store)@,
            );
            r == v.0 && final(store)@ == v.1
        }),
{
    check_start_time(now, token_guard)?;
    check_max_amount(lamports, token_guard)?;
    check_gateway_token(&accounts.gateway_token, &accounts.payer, token_guard, now)?;
    check_balance(lamports, accounts.payer_lamports)?;
    let payer_ata = match unpack_token_account(&accounts.payer_ata.data) {
        Some(state) => state,
        None => {
            return Err(ErrorCode::Uninitialized);
        },
    };
    check_payer_token_account(&payer_ata, accounts.payer_ata.lamports, token_guard)?;
    let derive_key = match &accounts.membership_token_mint {
        Some(mint) => mint,
        None => &accounts.payer,
    };
    check_and_update_allowance(
        store,
        allowance_account_bump,
        token_guard,
        &accounts.token_guard_key,
        &accounts.allowance_account_key,
        derive_key,
    )?;
    let evidence = assemble_membership(
        token_guard.strategy,
        &accounts.membership_token,
        &accounts.membership_token_mint,
        &accounts.membership_token_metadata,
    )?;
    check_membership_token(token_guard, &evidence)?;
    Ok(
        Settlement {
            transfer_from: accounts.payer,
            transfer_to: token_guard.recipient,
            transfer_lamports: lamports,
            mint: token_guard.out_mint,
            destination: accounts.payer_ata.key,
            mint_amount: lamports,
            mint_authority_bump: token_guard.mint_authority_bump,
        },
    )
}

} // verus!
