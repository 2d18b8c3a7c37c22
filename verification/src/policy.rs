//! The guard policy engine: the ordered, short-circuiting chain of checks
//! an exchange must pass, and the settlement it authorizes when they all do.

use vstd::prelude::*;

use crate::accounts::{CredentialState, TokenAccountState};
use crate::config::TokenGuard;
use crate::credential::{check_credential, credential_verdict};
use crate::errors::ErrorCode;
use crate::keys::{key_eq, KeyBytes};
use crate::ledger::{allowance_step, check_and_update_allowance, count_of, derivation_matches, ledger_get, lemma_allowance_step_count, LedgerStore};
use crate::membership::{check_membership_token, membership_verdict, MembershipProof};

verus! {

/// Whether the guard is live at `now`: an absent start time means always
/// open.
pub open spec fn start_time_ok(start_time: Option<i64>, now: i64) -> bool {
    match start_time {
        Some(t) => now >= t,
        None => true,
    }
}

/// Rejects an exchange attempted before the guard's start time.
pub fn check_start_time(now: i64, token_guard: &TokenGuard) -> (r: Result<(), ErrorCode>)
    ensures
        r == (if start_time_ok(token_guard.start_time, now) {
            Result::<(), ErrorCode>::Ok(())
        } else {
            Result::<(), ErrorCode>::Err(ErrorCode::NotLiveYet)
        }),
{
    match token_guard.start_time {
        Some(start_time) => {
            if now < start_time {
                Err(ErrorCode::NotLiveYet)
            } else {
                Ok(())
            }
        },
        None => Ok(()),
    }
}

/// Whether the requested amount fits under the guard's ceiling: an absent
/// ceiling means unbounded.
pub open spec fn max_amount_ok(max_amount: Option<u64>, lamports: u64) -> bool {
    match max_amount {
        Some(m) => lamports <= m,
        None => true,
    }
}

/// Rejects an exchange asking for more than the guard's per-exchange
/// ceiling.
pub fn check_max_amount(lamports: u64, token_guard: &TokenGuard) -> (r: Result<(), ErrorCode>)
    ensures
        r == (if max_amount_ok(token_guard.max_amount, lamports) {
            Result::<(), ErrorCode>::Ok(())
        } else {
            Result::<(), ErrorCode>::Err(ErrorCode::MaxAmountExceeded)
        }),
{
    match token_guard.max_amount {
        Some(max_amount) => {
            if lamports > max_amount {
                Err(ErrorCode::MaxAmountExceeded)
            } else {
                Ok(())
            }
        },
        None => Ok(()),
    }
}

/// Rejects a payer who cannot cover the requested amount.
pub fn check_balance(lamports: u64, payer_lamports: u64) -> (r: Result<(), ErrorCode>)
    ensures
        r == (if payer_lamports >= lamports {
            Result::<(), ErrorCode>::Ok(())
        } else {
            Result::<(), ErrorCode>::Err(ErrorCode::NotEnoughSOL)
        }),
{
    if payer_lamports < lamports {
        Err(ErrorCode::NotEnoughSOL)
    } else {
        Ok(())
    }
}

/// The destination-account check: the payer's token account must be for the
/// guard's issuance mint, and must be ephemeral — carrying zero lamports —
/// so a pre-funded account cannot be reused to sidestep the per-account
/// allowance semantics.
pub open spec fn payer_account_verdict(
    payer_ata: TokenAccountState,
    payer_ata_lamports: u64,
    out_mint: KeyBytes,
) -> Result<(), ErrorCode> {
    if payer_ata.mint@ != out_mint@ {
        Err(ErrorCode::MintMismatch)
    } else if payer_ata_lamports != 0 {
        Err(ErrorCode::TokenAccountNotEphemeral)
    } else {
        Ok(())
    }
}

/// Checks the payer's destination token account, as
/// `payer_account_verdict` states.
pub fn check_payer_token_account(
    payer_ata: &TokenAccountState,
    payer_ata_lamports: u64,
    token_guard: &TokenGuard,
) -> (r: Result<(), ErrorCode>)
    ensures
        r == payer_account_verdict(*payer_ata, payer_ata_lamports, token_guard.out_mint),
{
    if !key_eq(&payer_ata.mint, &token_guard.out_mint) {
        Err(ErrorCode::MintMismatch)
    } else if payer_ata_lamports != 0 {
        Err(ErrorCode::TokenAccountNotEphemeral)
    } else {
        Ok(())
    }
}

/// An exchange request, after the boundary has decoded the accounts it
/// arrived with: the claimed amount, the payer and their balances, the
/// decoded credential, the optional membership evidence, and the
/// caller-supplied derivation proof for the allowance record.
pub struct ExchangeRequest {
    /// The amount of value to exchange.
    pub lamports: u64,
    /// The paying identity.
    pub payer: KeyBytes,
    /// The payer's native balance, for the solvency check.
    pub payer_lamports: u64,
    /// The address of the payer's destination token account.
    pub payer_ata_key: KeyBytes,
    /// The decoded state of that account.
    pub payer_ata: TokenAccountState,
    /// That account's native balance, for the freshness check.
    pub payer_ata_lamports: u64,
    /// The program owning the credential account.
    pub credential_owner: KeyBytes,
    /// The decoded credential, if its account parsed at all.
    pub credential: Option<CredentialState>,
    /// The membership evidence, each part optional.
    pub membership: MembershipProof,
    /// The caller-derived address of the allowance record.
    pub allowance_account_key: KeyBytes,
    /// The caller's derivation proof (bump) for that address.
    pub allowance_account_bump: u8,
}

/// The settlement an authorized exchange instructs: the lamport transfer to
/// the guard's recipient, and the token issuance to the payer's account
/// under the guard's derived issuing authority.
#[derive(Clone, Copy, Debug)]
pub struct Settlement {
    /// Who pays the lamports.
    pub transfer_from: KeyBytes,
    /// Who receives them.
    pub transfer_to: KeyBytes,
    /// How many lamports move.
    pub transfer_lamports: u64,
    /// The mint of the issued tokens.
    pub mint: KeyBytes,
    /// The token account receiving the issuance.
    pub destination: KeyBytes,
    /// How many tokens are issued.
    pub mint_amount: u64,
    /// The derivation proof of the guard's issuing authority.
    pub mint_authority_bump: u8,
}

/// The allowance key of a request: the membership token-type identifier when
/// one is supplied — so a collectible cannot be reused past the limit even
/// if it changes wallets — and the payer's own identity otherwise.
pub open spec fn spec_allowance_key(request: ExchangeRequest) -> KeyBytes {
    match request.membership.token_mint {
        Some(mint) => mint,
        None => request.payer,
    }
}

/// The settlement authorized for a request that passed every check.
pub open spec fn spec_settlement(token_guard: TokenGuard, request: ExchangeRequest) -> Settlement {
    Settlement {
        transfer_from: request.payer,
        transfer_to: token_guard.recipient,
        transfer_lamports: request.lamports,
        mint: token_guard.out_mint,
        destination: request.payer_ata_key,
        mint_amount: request.lamports,
        mint_authority_bump: token_guard.mint_authority_bump,
    }
}

/// The whole policy decision, as a pure function from the guard, the
/// request, the clock and the ledger to the outcome and the ledger
/// afterwards.
///
/// The checks run strictly in this order, each short-circuiting with its
/// own failure: liveness, ceiling, credential, solvency, destination
/// account, allowance, membership. Nothing is persisted before the
/// allowance step; the allowance, however, is consumed before the
/// membership check and before settlement, so a request refused for
/// membership — or a settlement that later fails — leaves the allowance
/// spent. That ordering is deliberate and callers must account for it when
/// retrying.
pub open spec fn exchange_verdict(
    token_guard: TokenGuard,
    token_guard_key: KeyBytes,
    request: ExchangeRequest,
    now: i64,
    l: Seq<(Seq<u8>, u8)>,
) -> (Result<Settlement, ErrorCode>, Seq<(Seq<u8>, u8)>) {
    if !start_time_ok(token_guard.start_time, now) {
        (Err(ErrorCode::NotLiveYet), l)
    } else if !max_amount_ok(token_guard.max_amount, request.lamports) {
        (Err(ErrorCode::MaxAmountExceeded), l)
    } else if credential_verdict(
        request.credential_owner@,
        request.credential,
        request.payer@,
        token_guard.gatekeeper_network@,
        now,
    ) is Err {
        (Err(ErrorCode::CredentialInvalid), l)
    } else if request.payer_lamports < request.lamports {
        (Err(ErrorCode::NotEnoughSOL), l)
    } else if payer_account_verdict(
        request.payer_ata,
        request.payer_ata_lamports,
        token_guard.out_mint,
    ) is Err {
        (Err(payer_account_verdict(
            request.payer_ata,
            request.payer_ata_lamports,
            token_guard.out_mint,
        )->Err_0), l)
    } else {
        let step = allowance_step(
            l,
            request.allowance_account_key@,
            derivation_matches(
                token_guard_key@,
                spec_allowance_key(request)@,
                request.allowance_account_key@,
                request.allowance_account_bump,
            ),
            token_guard.allowance,
        );
        match step.0 {
            Err(e) => (Err(e), l),
            Ok(()) => match membership_verdict(
                token_guard.strategy,
                token_guard.membership_token,
                request.membership,
            ) {
                Err(e) => (Err(e), step.1),
                Ok(()) => (Ok(spec_settlement(token_guard, request)), step.1),
            },
        }
    }
}

/// Runs the policy chain on a decoded request, consuming allowance from the
/// store exactly as `exchange_verdict` states, and returns the authorized
/// settlement.
pub fn exchange(
    token_guard: &TokenGuard,
    token_guard_key: &KeyBytes,
    store: &mut LedgerStore,
    request: &ExchangeRequest,
    now: i64,
) -> (r: Result<Settlement, ErrorCode>)
    ensures
        ({
            let v = exchange_verdict(*token_guard, *token_guard_key, *request, now, old(store)@);
            r == v.0 && final(store)@ == v.1
        }),
{
    check_start_time(now, token_guard)?;
    check_max_amount(request.lamports, token_guard)?;
    check_credential(
        &request.credential_owner,
        &request.credential,
        &request.payer,
        &token_guard.gatekeeper_network,
        now,
    )?;
    check_balance(request.lamports, request.payer_lamports)?;
    check_payer_token_account(&request.payer_ata, request.payer_ata_lamports, token_guard)?;
    let derive_key = match &request.membership.token_mint {
        Some(mint) => mint,
        None => &request.payer,
    };
    check_and_update_allowance(
        store,
        request.allowance_account_bump,
        token_guard,
        token_guard_key,
        &request.allowance_account_key,
        derive_key,
    )?;
    check_membership_token(token_guard, &request.membership)?;
    Ok(
        Settlement {
            transfer_from: request.payer,
            transfer_to: token_guard.recipient,
            transfer_lamports: request.lamports,
            mint: token_guard.out_mint,
            destination: request.payer_ata_key,
            mint_amount: request.lamports,
            mint_authority_bump: token_guard.mint_authority_bump,
        },
    )
}

/// Whether every check before the allowance step passes: liveness,
/// ceiling, credential, solvency and the destination account.
pub open spec fn pre_allowance_checks_pass(
    token_guard: TokenGuard,
    request: ExchangeRequest,
    now: i64,
) -> bool {
    &&& start_time_ok(token_guard.start_time, now)
    &&& max_amount_ok(token_guard.max_amount, request.lamports)
    &&& credential_verdict(
        request.credential_owner@,
        request.credential,
        request.payer@,
        token_guard.gatekeeper_network@,
        now,
    ) is Ok
    &&& request.payer_lamports >= request.lamports
    &&& payer_account_verdict(
        request.payer_ata,
        request.payer_ata_lamports,
        token_guard.out_mint,
    ) is Ok
}

/// A successful exchange under a positive allowance limit happens only
/// while the key's counter is strictly under the limit, and raises it by
/// exactly one — so at most `limit` exchanges ever succeed per allowance
/// address.
pub proof fn lemma_exchange_consumes_allowance(
    token_guard: TokenGuard,
    token_guard_key: KeyBytes,
    request: ExchangeRequest,
    now: i64,
    l: Seq<(Seq<u8>, u8)>,
)
    requires
        token_guard.allowance > 0,
        count_of(l, request.allowance_account_key@) <= token_guard.allowance,
    ensures
        ({
            let v = exchange_verdict(token_guard, token_guard_key, request, now, l);
            v.0 is Ok ==> {
                &&& count_of(l, request.allowance_account_key@) < token_guard.allowance
                &&& count_of(v.1, request.allowance_account_key@) == count_of(
                    l,
                    request.allowance_account_key@,
                ) + 1
            }
        }),
{
    let addr = request.allowance_account_key@;
    let creation_ok = derivation_matches(
        token_guard_key@,
        spec_allowance_key(request)@,
        addr,
        request.allowance_account_bump,
    );
    lemma_allowance_step_count(l, addr, creation_ok, token_guard.allowance);
}

/// A guard whose key's allowance is already used up refuses the exchange
/// without touching the ledger; when every earlier check passes, the
/// refusal is `AllowanceExceeded`.
pub proof fn lemma_exhausted_allowance_rejects(
    token_guard: TokenGuard,
    token_guard_key: KeyBytes,
    request: ExchangeRequest,
    now: i64,
    l: Seq<(Seq<u8>, u8)>,
)
    requires
        token_guard.allowance > 0,
        ledger_get(l, request.allowance_account_key@) is Some,
        count_of(l, request.allowance_account_key@) >= token_guard.allowance,
    ensures
        ({
            let v = exchange_verdict(token_guard, token_guard_key, request, now, l);
            &&& v.0 is Err
            &&& v.1 == l
            &&& pre_allowance_checks_pass(token_guard, request, now) ==> v.0 == Result::<
                Settlement,
                ErrorCode,
            >::Err(ErrorCode::AllowanceExceeded)
        }),
{
}

/// With an allowance limit of zero the ledger is never touched and the
/// allowance refuses nothing: however an exchange ends, it is never for
/// `AllowanceExceeded` or `DerivationMismatch`, so any number of exchanges
/// can succeed under one key.
pub proof fn lemma_unlimited_allowance(
    token_guard: TokenGuard,
    token_guard_key: KeyBytes,
    request: ExchangeRequest,
    now: i64,
    l: Seq<(Seq<u8>, u8)>,
)
    requires
        token_guard.allowance == 0,
    ensures
        ({
            let v = exchange_verdict(token_guard, token_guard_key, request, now, l);
            &&& v.1 == l
            &&& v.0 != Result::<Settlement, ErrorCode>::Err(ErrorCode::AllowanceExceeded)
            &&& v.0 != Result::<Settlement, ErrorCode>::Err(ErrorCode::DerivationMismatch)
        }),
{
}

/// Which identity the allowance is charged to: a presented membership
/// token-type ties the counter to that token type — the same collectible
/// presented by two different payers shares one counter — while a request
/// without one charges the payer's own identity.
pub proof fn lemma_allowance_key_selection(first: ExchangeRequest, second: ExchangeRequest)
    ensures
        first.membership.token_mint is Some && first.membership.token_mint
            == second.membership.token_mint ==> spec_allowance_key(first) == spec_allowance_key(
            second,
        ),
        first.membership.token_mint is None ==> spec_allowance_key(first) == first.payer,
{
}

/// Folds the two external settlement calls' outcomes into the exchange's
/// result: settlement succeeds only when both the transfer and the issuance
/// did; either failing is reported as a failed transfer — after the
/// allowance was already consumed.
pub fn settlement_result(transfer_ok: bool, mint_ok: bool) -> (r: Result<(), ErrorCode>)
    ensures
        r == (if transfer_ok && mint_ok {
            Result::<(), ErrorCode>::Ok(())
        } else {
            Result::<(), ErrorCode>::Err(ErrorCode::TokenTransferFailed)
        }),
{
    if transfer_ok && mint_ok {
        Ok(())
    } else {
        Err(ErrorCode::TokenTransferFailed)
    }
}

} // verus!
