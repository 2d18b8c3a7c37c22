//! Tests of the allowance ledger: the limit bound, the unlimited case, the
//! deterministic record derivation, the derivation-proof check at creation,
//! and the allowance-key selection.

use solana_program::pubkey::Pubkey;
use token_guard::accounts::{CredentialState, CredentialTokenState, TokenAccountState};
use token_guard::config::{Strategy, TokenGuard};
use token_guard::credential::GATEWAY_PROGRAM_ID;
use token_guard::derive::{ALLOWANCE_ACCOUNT_SEED, GUARD_PROGRAM_ID};
use token_guard::errors::ErrorCode;
use token_guard::ledger::{check_and_update_allowance, AllowanceAccount, LedgerStore, ALLOWANCE_ACCOUNT_SIZE, ALLOWANCE_ACCOUNT_TAG};
use token_guard::membership::MembershipProof;
use token_guard::policy::{exchange, ExchangeRequest};

fn key(tag: u8) -> [u8; 32] {
    let mut bytes = [0u8; 32];
    bytes[0] = tag;
    bytes[31] = 0x5A;
    bytes
}

/// Derives the allowance record address the same way any client would.
fn derive_record(guard_key: &[u8; 32], derive_key: &[u8; 32]) -> ([u8; 32], u8) {
    let program = Pubkey::new_from_array(GUARD_PROGRAM_ID);
    let (address, bump) = Pubkey::find_program_address(
        &[&ALLOWANCE_ACCOUNT_SEED, guard_key, derive_key],
        &program,
    );
    (address.to_bytes(), bump)
}

fn guard_with_allowance(allowance: u8) -> TokenGuard {
    TokenGuard {
        authority: key(1),
        recipient: key(2),
        gatekeeper_network: key(3),
        membership_token: None,
        out_mint: key(4),
        mint_authority_bump: 254,
        start_time: None,
        allowance,
        max_amount: None,
        strategy: Strategy::GatewayOnly,
    }
}

fn request_with_allowance(
    payer: [u8; 32],
    guard: &TokenGuard,
    record: ([u8; 32], u8),
    token_mint: Option<[u8; 32]>,
) -> ExchangeRequest {
    ExchangeRequest {
        lamports: 10,
        payer,
        payer_lamports: 1_000,
        payer_ata_key: key(9),
        payer_ata: TokenAccountState { mint: guard.out_mint, owner: payer, amount: 0 },
        payer_ata_lamports: 0,
        credential_owner: GATEWAY_PROGRAM_ID,
        credential: Some(CredentialState {
            owner_wallet: payer,
            gatekeeper_network: guard.gatekeeper_network,
            state: CredentialTokenState::Active,
            expire_time: None,
        }),
        membership: MembershipProof { token_account: None, token_mint, metadata: None },
        allowance_account_key: record.0,
        allowance_account_bump: record.1,
    }
}

#[test]
fn derivation_is_deterministic() {
    let first = derive_record(&key(20), &key(7));
    let second = derive_record(&key(20), &key(7));
    assert_eq!(first.0, second.0);
    assert_eq!(first.1, second.1);
    let other = derive_record(&key(20), &key(8));
    assert_ne!(first.0, other.0);
}

#[test]
fn limit_caps_consumptions_per_key() {
    let tg = guard_with_allowance(2);
    let guard_key = key(20);
    let payer = key(7);
    let record = derive_record(&guard_key, &payer);
    let mut store = LedgerStore::new();

    assert_eq!(
        check_and_update_allowance(&mut store, record.1, &tg, &guard_key, &record.0, &payer),
        Ok(())
    );
    assert_eq!(store.get(&record.0), Some(1));
    assert_eq!(
        check_and_update_allowance(&mut store, record.1, &tg, &guard_key, &record.0, &payer),
        Ok(())
    );
    assert_eq!(store.get(&record.0), Some(2));
    assert_eq!(
        check_and_update_allowance(&mut store, record.1, &tg, &guard_key, &record.0, &payer),
        Err(ErrorCode::AllowanceExceeded)
    );
    assert_eq!(store.get(&record.0), Some(2));
}

#[test]
fn zero_limit_never_blocks_and_never_writes() {
    let tg = guard_with_allowance(0);
    let guard_key = key(20);
    let payer = key(7);
    let record = derive_record(&guard_key, &payer);
    let mut store = LedgerStore::new();
    for _ in 0..100 {
        assert_eq!(
            check_and_update_allowance(&mut store, record.1, &tg, &guard_key, &record.0, &payer),
            Ok(())
        );
    }
    assert_eq!(store.get(&record.0), None);
}

#[test]
fn creation_rejects_wrong_bump() {
    let tg = guard_with_allowance(1);
    let guard_key = key(20);
    let payer = key(7);
    let record = derive_record(&guard_key, &payer);
    let wrong_bump = record.1.wrapping_sub(1);
    let mut store = LedgerStore::new();
    assert_eq!(
        check_and_update_allowance(&mut store, wrong_bump, &tg, &guard_key, &record.0, &payer),
        Err(ErrorCode::DerivationMismatch)
    );
    assert_eq!(store.get(&record.0), None);
}

#[test]
fn creation_rejects_wrong_address() {
    let tg = guard_with_allowance(1);
    let guard_key = key(20);
    let payer = key(7);
    let record = derive_record(&guard_key, &payer);
    let wrong_address = key(99);
    let mut store = LedgerStore::new();
    assert_eq!(
        check_and_update_allowance(&mut store, record.1, &tg, &guard_key, &wrong_address, &payer),
        Err(ErrorCode::DerivationMismatch)
    );
    assert_eq!(store.get(&wrong_address), None);
}

#[test]
fn exchange_enforces_allowance_limit() {
    let tg = guard_with_allowance(1);
    let guard_key = key(20);
    let payer = key(7);
    let record = derive_record(&guard_key, &payer);
    let request = request_with_allowance(payer, &tg, record, None);
    let mut store = LedgerStore::new();

    assert!(exchange(&tg, &guard_key, &mut store, &request, 0).is_ok());
    assert_eq!(
        exchange(&tg, &guard_key, &mut store, &request, 0).unwrap_err(),
        ErrorCode::AllowanceExceeded
    );
}

#[test]
fn membership_mint_ties_allowance_across_payers() {
    let tg = guard_with_allowance(1);
    let guard_key = key(20);
    let nft_mint = key(33);
    let record = derive_record(&guard_key, &nft_mint);
    let mut store = LedgerStore::new();

    let first = request_with_allowance(key(7), &tg, record, Some(nft_mint));
    assert!(exchange(&tg, &guard_key, &mut store, &first, 0).is_ok());

    let second = request_with_allowance(key(8), &tg, record, Some(nft_mint));
    assert_eq!(
        exchange(&tg, &guard_key, &mut store, &second, 0).unwrap_err(),
        ErrorCode::AllowanceExceeded
    );
}

#[test]
fn absent_membership_mint_ties_allowance_to_payer() {
    let tg = guard_with_allowance(1);
    let guard_key = key(20);
    let mut store = LedgerStore::new();

    let payer_one = key(7);
    let first = request_with_allowance(payer_one, &tg, derive_record(&guard_key, &payer_one), None);
    assert!(exchange(&tg, &guard_key, &mut store, &first, 0).is_ok());

    let payer_two = key(8);
    let second = request_with_allowance(payer_two, &tg, derive_record(&guard_key, &payer_two), None);
    assert!(exchange(&tg, &guard_key, &mut store, &second, 0).is_ok());

    assert_eq!(
        exchange(&tg, &guard_key, &mut store, &first, 0).unwrap_err(),
        ErrorCode::AllowanceExceeded
    );
}

#[test]
fn allowance_record_layout_is_stable() {
    let record = AllowanceAccount { amount: 3 };
    let bytes = record.to_bytes();
    assert_eq!(bytes.len(), ALLOWANCE_ACCOUNT_SIZE);
    assert_eq!(&bytes[..8], &ALLOWANCE_ACCOUNT_TAG);
    assert_eq!(bytes[8], 3);
    let back = AllowanceAccount::from_bytes(&bytes).unwrap();
    assert_eq!(back.amount, 3);
}

#[test]
fn allowance_record_rejects_foreign_bytes() {
    assert!(AllowanceAccount::from_bytes(&vec![0u8; 9]).is_none());
    assert!(AllowanceAccount::from_bytes(&vec![0u8; 3]).is_none());
    let mut bytes = AllowanceAccount { amount: 1 }.to_bytes();
    bytes.push(0);
    assert!(AllowanceAccount::from_bytes(&bytes).is_none());
}

#[test]
fn allowance_failure_after_membership_consumption_is_kept() {
    // The allowance is consumed before the membership check: a request that
    // then fails membership leaves the allowance spent.
    let mut tg = guard_with_allowance(1);
    tg.strategy = Strategy::MembershipSPLToken;
    tg.membership_token = Some(key(30));
    let guard_key = key(20);
    let payer = key(7);
    let record = derive_record(&guard_key, &payer);
    let mut request = request_with_allowance(payer, &tg, record, None);
    request.membership.token_account =
        Some(TokenAccountState { mint: key(30), owner: payer, amount: 0 });
    let mut store = LedgerStore::new();

    assert_eq!(
        exchange(&tg, &guard_key, &mut store, &request, 0).unwrap_err(),
        ErrorCode::NoMembershipToken
    );
    assert_eq!(store.get(&record.0), Some(1));

    request.membership.token_account =
        Some(TokenAccountState { mint: key(30), owner: payer, amount: 3 });
    assert_eq!(
        exchange(&tg, &guard_key, &mut store, &request, 0).unwrap_err(),
        ErrorCode::AllowanceExceeded
    );
}
