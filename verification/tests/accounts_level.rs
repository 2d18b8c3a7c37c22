//! Account-level tests: the engine decoding real token, credential and
//! metadata account bytes through the outside crates' own parsers.

use solana_program::pubkey::Pubkey;
use token_guard::accounts::RawAccount;
use token_guard::config::{Strategy, TokenGuard};
use token_guard::credential::{check_gateway_token, GATEWAY_PROGRAM_ID};
use token_guard::decode::TOKEN_PROGRAM_ID;
use token_guard::derive::{ALLOWANCE_ACCOUNT_SEED, GUARD_PROGRAM_ID};
use token_guard::entry::{exchange, initialize, Exchange, Initialize};
use token_guard::errors::ErrorCode;
use token_guard::ledger::LedgerStore;

fn key(tag: u8) -> [u8; 32] {
    let mut bytes = [0u8; 32];
    bytes[0] = tag;
    bytes[31] = 0x3C;
    bytes
}

/// The 165-byte token-account layout of the token program.
fn token_account_bytes(mint: [u8; 32], owner: [u8; 32], amount: u64) -> Vec<u8> {
    let mut data = Vec::new();
    data.extend_from_slice(&mint);
    data.extend_from_slice(&owner);
    data.extend_from_slice(&amount.to_le_bytes());
    data.extend_from_slice(&[0u8; 4]); // delegate: COption tag = None
    data.extend_from_slice(&[0u8; 32]);
    data.push(1); // state: initialized
    data.extend_from_slice(&[0u8; 4]); // is_native: COption tag = None
    data.extend_from_slice(&[0u8; 8]);
    data.extend_from_slice(&[0u8; 8]); // delegated amount
    data.extend_from_slice(&[0u8; 4]); // close authority: COption tag = None
    data.extend_from_slice(&[0u8; 32]);
    assert_eq!(data.len(), 165);
    data
}

/// The 82-byte mint layout of the token program.
fn mint_bytes(mint_authority: Option<[u8; 32]>, supply: u64, decimals: u8) -> Vec<u8> {
    let mut data = Vec::new();
    match mint_authority {
        Some(authority) => {
            data.extend_from_slice(&1u32.to_le_bytes());
            data.extend_from_slice(&authority);
        },
        None => {
            data.extend_from_slice(&0u32.to_le_bytes());
            data.extend_from_slice(&[0u8; 32]);
        },
    }
    data.extend_from_slice(&supply.to_le_bytes());
    data.push(decimals);
    data.push(1); // initialized
    data.extend_from_slice(&[0u8; 4]); // freeze authority: COption tag = None
    data.extend_from_slice(&[0u8; 32]);
    assert_eq!(data.len(), 82);
    data
}

/// The borsh layout of a gateway token: version, deprecated parent,
/// owner wallet, deprecated owner identity, gatekeeper network, issuing
/// gatekeeper, state, expiry.
fn gateway_token_bytes(
    owner_wallet: [u8; 32],
    network: [u8; 32],
    state: u8,
    expire_time: Option<i64>,
) -> Vec<u8> {
    let mut data = Vec::new();
    data.push(0); // version
    data.push(0); // parent_gateway_token: None
    data.extend_from_slice(&owner_wallet);
    data.push(0); // owner_identity: None
    data.extend_from_slice(&network);
    data.extend_from_slice(&key(111)); // issuing gatekeeper
    data.push(state);
    match expire_time {
        Some(t) => {
            data.push(1);
            data.extend_from_slice(&t.to_le_bytes());
        },
        None => data.push(0),
    }
    data
}

fn borsh_string(data: &mut Vec<u8>, s: &str) {
    data.extend_from_slice(&(s.len() as u32).to_le_bytes());
    data.extend_from_slice(s.as_bytes());
}

/// The borsh layout of a collectible metadata record, with one creator
/// entry and every trailing optional field absent.
fn metadata_bytes(
    update_authority: [u8; 32],
    mint: [u8; 32],
    creators: Option<Vec<([u8; 32], bool)>>,
) -> Vec<u8> {
    let mut data = Vec::new();
    data.push(4); // record kind: metadata
    data.extend_from_slice(&update_authority);
    data.extend_from_slice(&mint);
    borsh_string(&mut data, "Credential");
    borsh_string(&mut data, "CRED");
    borsh_string(&mut data, "https://example.invalid/meta.json");
    data.extend_from_slice(&0u16.to_le_bytes()); // seller fee
    match creators {
        Some(entries) => {
            data.push(1);
            data.extend_from_slice(&(entries.len() as u32).to_le_bytes());
            for (address, verified) in entries {
                data.extend_from_slice(&address);
                data.push(if verified { 1 } else { 0 });
                data.push(100); // share
            }
        },
        None => data.push(0),
    }
    data.push(0); // primary sale happened
    data.push(1); // is mutable
    data.push(0); // edition nonce: None
    data.push(0); // token standard: None
    data.push(0); // collection: None
    data.push(0); // uses: None
    data.push(0); // collection details: None
    data.push(0); // programmable config: None
    data
}

fn derive_record(guard_key: &[u8; 32], derive_key: &[u8; 32]) -> ([u8; 32], u8) {
    let program = Pubkey::new_from_array(GUARD_PROGRAM_ID);
    let (address, bump) = Pubkey::find_program_address(
        &[&ALLOWANCE_ACCOUNT_SEED, guard_key, derive_key],
        &program,
    );
    (address.to_bytes(), bump)
}

fn initialize_accounts(mint_authority: [u8; 32]) -> Initialize {
    Initialize {
        authority: key(1),
        recipient: key(2),
        out_mint: RawAccount {
            key: key(4),
            owner: TOKEN_PROGRAM_ID,
            lamports: 1_000_000,
            data: mint_bytes(Some(mint_authority), 0, 9),
        },
        mint_authority,
    }
}

fn live_guard(allowance: u8) -> TokenGuard {
    initialize(
        &initialize_accounts(key(5)),
        254,
        key(3),
        None,
        Some(allowance),
        None,
        None,
        0,
    )
    .unwrap()
}

fn exchange_accounts(tg: &TokenGuard, payer: [u8; 32], payer_lamports: u64) -> Exchange {
    let record = derive_record(&key(20), &payer);
    Exchange {
        token_guard_key: key(20),
        payer,
        payer_lamports,
        payer_ata: RawAccount {
            key: key(9),
            owner: TOKEN_PROGRAM_ID,
            lamports: 0,
            data: token_account_bytes(tg.out_mint, payer, 0),
        },
        gateway_token: RawAccount {
            key: key(8),
            owner: GATEWAY_PROGRAM_ID,
            lamports: 1,
            data: gateway_token_bytes(payer, tg.gatekeeper_network, 0, None),
        },
        membership_token: None,
        membership_token_mint: None,
        membership_token_metadata: None,
        allowance_account_key: record.0,
    }
}

#[test]
fn program_id_constants_match_the_crates() {
    assert_eq!(GATEWAY_PROGRAM_ID, solana_gateway::Gateway::program_id().to_bytes());
    assert_eq!(TOKEN_PROGRAM_ID, spl_token::id().to_bytes());
}

#[test]
fn initialize_stores_the_configuration() {
    let accounts = initialize_accounts(key(5));
    let tg = initialize(
        &accounts,
        253,
        key(3),
        Some(44),
        Some(7),
        Some(5_000),
        Some(key(30)),
        1,
    )
    .unwrap();
    assert_eq!(tg.authority, key(1));
    assert_eq!(tg.recipient, key(2));
    assert_eq!(tg.gatekeeper_network, key(3));
    assert_eq!(tg.out_mint, key(4));
    assert_eq!(tg.mint_authority_bump, 253);
    assert_eq!(tg.start_time, Some(44));
    assert_eq!(tg.allowance, 7);
    assert_eq!(tg.max_amount, Some(5_000));
    assert_eq!(tg.membership_token, Some(key(30)));
    assert!(matches!(tg.strategy, Strategy::MembershipSPLToken));
}

#[test]
fn initialize_defaults_absent_allowance_to_zero() {
    let tg = initialize(&initialize_accounts(key(5)), 254, key(3), None, None, None, None, 0)
        .unwrap();
    assert_eq!(tg.allowance, 0);
    assert!(matches!(tg.strategy, Strategy::GatewayOnly));
}

#[test]
fn initialize_rejects_unknown_strategy_byte() {
    let r = initialize(&initialize_accounts(key(5)), 254, key(3), None, None, None, None, 4);
    assert_eq!(r.unwrap_err(), ErrorCode::InvalidStrategy);
}

#[test]
fn initialize_rejects_foreign_mint_owner() {
    let mut accounts = initialize_accounts(key(5));
    accounts.out_mint.owner = key(66);
    let r = initialize(&accounts, 254, key(3), None, None, None, None, 0);
    assert_eq!(r.unwrap_err(), ErrorCode::IncorrectOwner);
}

#[test]
fn initialize_rejects_undecodable_mint() {
    let mut accounts = initialize_accounts(key(5));
    accounts.out_mint.data = vec![1, 2, 3];
    let r = initialize(&accounts, 254, key(3), None, None, None, None, 0);
    assert_eq!(r.unwrap_err(), ErrorCode::Uninitialized);
}

#[test]
fn initialize_rejects_uninitialized_mint() {
    let mut accounts = initialize_accounts(key(5));
    let len = accounts.out_mint.data.len();
    accounts.out_mint.data[36 + 8 + 1] = 0; // clear the initialized flag
    assert_eq!(accounts.out_mint.data.len(), len);
    let r = initialize(&accounts, 254, key(3), None, None, None, None, 0);
    assert_eq!(r.unwrap_err(), ErrorCode::Uninitialized);
}

#[test]
fn initialize_rejects_wrong_mint_authority() {
    let mut accounts = initialize_accounts(key(5));
    accounts.mint_authority = key(6);
    let r = initialize(&accounts, 254, key(3), None, None, None, None, 0);
    assert_eq!(r.unwrap_err(), ErrorCode::MintAuthorityMismatch);
}

#[test]
fn initialize_rejects_mint_without_authority() {
    let mut accounts = initialize_accounts(key(5));
    accounts.out_mint.data = mint_bytes(None, 0, 9);
    let r = initialize(&accounts, 254, key(3), None, None, None, None, 0);
    assert_eq!(r.unwrap_err(), ErrorCode::MintAuthorityMismatch);
}

#[test]
fn full_exchange_over_account_bytes() {
    let tg = live_guard(1);
    let payer = key(7);
    let accounts = exchange_accounts(&tg, payer, 10_000);
    let record = derive_record(&key(20), &payer);
    let mut store = LedgerStore::new();

    let settlement = exchange(&tg, &mut store, &accounts, 600, record.1, 77).unwrap();
    assert_eq!(settlement.transfer_from, payer);
    assert_eq!(settlement.transfer_to, tg.recipient);
    assert_eq!(settlement.transfer_lamports, 600);
    assert_eq!(settlement.mint, tg.out_mint);
    assert_eq!(settlement.destination, key(9));
    assert_eq!(settlement.mint_amount, 600);
    assert_eq!(store.get(&record.0), Some(1));

    let r = exchange(&tg, &mut store, &accounts, 600, record.1, 77);
    assert_eq!(r.unwrap_err(), ErrorCode::AllowanceExceeded);
}

#[test]
fn exchange_rejects_credential_for_another_wallet() {
    let tg = live_guard(0);
    let payer = key(7);
    let mut accounts = exchange_accounts(&tg, payer, 10_000);
    accounts.gateway_token.data = gateway_token_bytes(key(8), tg.gatekeeper_network, 0, None);
    let mut store = LedgerStore::new();
    let r = exchange(&tg, &mut store, &accounts, 600, 255, 77);
    assert_eq!(r.unwrap_err(), ErrorCode::CredentialInvalid);
}

#[test]
fn exchange_rejects_frozen_credential() {
    let tg = live_guard(0);
    let payer = key(7);
    let mut accounts = exchange_accounts(&tg, payer, 10_000);
    accounts.gateway_token.data = gateway_token_bytes(payer, tg.gatekeeper_network, 1, None);
    let mut store = LedgerStore::new();
    let r = exchange(&tg, &mut store, &accounts, 600, 255, 77);
    assert_eq!(r.unwrap_err(), ErrorCode::CredentialInvalid);
}

#[test]
fn exchange_rejects_credential_account_not_owned_by_gateway() {
    let tg = live_guard(0);
    let payer = key(7);
    let mut accounts = exchange_accounts(&tg, payer, 10_000);
    accounts.gateway_token.owner = key(66);
    let mut store = LedgerStore::new();
    let r = exchange(&tg, &mut store, &accounts, 600, 255, 77);
    assert_eq!(r.unwrap_err(), ErrorCode::CredentialInvalid);
}

#[test]
fn check_gateway_token_honors_expiry_against_the_clock() {
    let tg = live_guard(0);
    let payer = key(7);
    let token = RawAccount {
        key: key(8),
        owner: GATEWAY_PROGRAM_ID,
        lamports: 1,
        data: gateway_token_bytes(payer, tg.gatekeeper_network, 0, Some(1_000)),
    };
    assert_eq!(check_gateway_token(&token, &payer, &tg, 1_000), Ok(()));
    assert_eq!(
        check_gateway_token(&token, &payer, &tg, 1_001),
        Err(ErrorCode::CredentialInvalid)
    );
}

#[test]
fn exchange_rejects_undecodable_destination_account() {
    let tg = live_guard(0);
    let payer = key(7);
    let mut accounts = exchange_accounts(&tg, payer, 10_000);
    accounts.payer_ata.data = vec![0; 10];
    let mut store = LedgerStore::new();
    let r = exchange(&tg, &mut store, &accounts, 600, 255, 77);
    assert_eq!(r.unwrap_err(), ErrorCode::Uninitialized);
}

#[test]
fn exchange_rejects_destination_for_another_mint() {
    let tg = live_guard(0);
    let payer = key(7);
    let mut accounts = exchange_accounts(&tg, payer, 10_000);
    accounts.payer_ata.data = token_account_bytes(key(44), payer, 0);
    let mut store = LedgerStore::new();
    let r = exchange(&tg, &mut store, &accounts, 600, 255, 77);
    assert_eq!(r.unwrap_err(), ErrorCode::MintMismatch);
}

#[test]
fn exchange_rejects_prefunded_destination_account() {
    let tg = live_guard(0);
    let payer = key(7);
    let mut accounts = exchange_accounts(&tg, payer, 10_000);
    accounts.payer_ata.lamports = 5;
    let mut store = LedgerStore::new();
    let r = exchange(&tg, &mut store, &accounts, 600, 255, 77);
    assert_eq!(r.unwrap_err(), ErrorCode::TokenAccountNotEphemeral);
}

#[test]
fn fungible_exchange_over_account_bytes() {
    let mut tg = live_guard(0);
    tg.strategy = Strategy::MembershipSPLToken;
    tg.membership_token = Some(key(30));
    let payer = key(7);
    let mut accounts = exchange_accounts(&tg, payer, 10_000);
    accounts.membership_token = Some(RawAccount {
        key: key(12),
        owner: TOKEN_PROGRAM_ID,
        lamports: 1,
        data: token_account_bytes(key(30), payer, 2),
    });
    let mut store = LedgerStore::new();
    assert!(exchange(&tg, &mut store, &accounts, 600, 255, 77).is_ok());

    let zero_balance = token_account_bytes(key(30), payer, 0);
    accounts.membership_token.as_mut().unwrap().data = zero_balance;
    let r = exchange(&tg, &mut store, &accounts, 600, 255, 77);
    assert_eq!(r.unwrap_err(), ErrorCode::NoMembershipToken);
}

#[test]
fn creator_exchange_over_metadata_bytes() {
    let mut tg = live_guard(0);
    tg.strategy = Strategy::MembershipNftCreator;
    tg.membership_token = Some(key(30));
    let payer = key(7);
    let nft_mint = key(33);
    let mut accounts = exchange_accounts(&tg, payer, 10_000);
    accounts.membership_token_mint = Some(nft_mint);
    accounts.membership_token_metadata = Some(RawAccount {
        key: key(13),
        owner: key(14),
        lamports: 1,
        data: metadata_bytes(key(50), nft_mint, Some(vec![(key(30), true)])),
    });
    let record = derive_record(&key(20), &nft_mint);
    accounts.allowance_account_key = record.0;
    let mut store = LedgerStore::new();
    assert!(exchange(&tg, &mut store, &accounts, 600, record.1, 77).is_ok());

    let unverified = metadata_bytes(key(50), nft_mint, Some(vec![(key(30), false)]));
    accounts.membership_token_metadata.as_mut().unwrap().data = unverified;
    let r = exchange(&tg, &mut store, &accounts, 600, record.1, 77);
    assert_eq!(r.unwrap_err(), ErrorCode::UnverifiedMembershipTokenCreator);

    let wrong_creator = metadata_bytes(key(50), nft_mint, Some(vec![(key(31), true)]));
    accounts.membership_token_metadata.as_mut().unwrap().data = wrong_creator;
    let r = exchange(&tg, &mut store, &accounts, 600, record.1, 77);
    assert_eq!(r.unwrap_err(), ErrorCode::MembershipTokenMismatch);
}

#[test]
fn update_authority_exchange_over_metadata_bytes() {
    let mut tg = live_guard(0);
    tg.strategy = Strategy::MembershipNftUpdateAuthority;
    tg.membership_token = Some(key(30));
    let payer = key(7);
    let nft_mint = key(33);
    let mut accounts = exchange_accounts(&tg, payer, 10_000);
    accounts.membership_token_mint = Some(nft_mint);
    accounts.membership_token_metadata = Some(RawAccount {
        key: key(13),
        owner: key(14),
        lamports: 1,
        data: metadata_bytes(key(30), nft_mint, None),
    });
    let record = derive_record(&key(20), &nft_mint);
    accounts.allowance_account_key = record.0;
    let mut store = LedgerStore::new();
    assert!(exchange(&tg, &mut store, &accounts, 600, record.1, 77).is_ok());

    let wrong_authority = metadata_bytes(key(31), nft_mint, None);
    accounts.membership_token_metadata.as_mut().unwrap().data = wrong_authority;
    let r = exchange(&tg, &mut store, &accounts, 600, record.1, 77);
    assert_eq!(r.unwrap_err(), ErrorCode::MembershipTokenMismatch);
}

#[test]
fn missing_metadata_account_shows_no_membership() {
    let mut tg = live_guard(0);
    tg.strategy = Strategy::MembershipNftCreator;
    tg.membership_token = Some(key(30));
    let payer = key(7);
    let accounts = exchange_accounts(&tg, payer, 10_000);
    let mut store = LedgerStore::new();
    let r = exchange(&tg, &mut store, &accounts, 600, 255, 77);
    assert_eq!(r.unwrap_err(), ErrorCode::NoMembershipToken);
}

#[test]
fn undecodable_metadata_account_is_uninitialized() {
    let mut tg = live_guard(0);
    tg.strategy = Strategy::MembershipNftCreator;
    tg.membership_token = Some(key(30));
    let payer = key(7);
    let mut accounts = exchange_accounts(&tg, payer, 10_000);
    accounts.membership_token_mint = Some(key(33));
    accounts.membership_token_metadata = Some(RawAccount {
        key: key(13),
        owner: key(14),
        lamports: 1,
        data: vec![9, 9, 9],
    });
    let record = derive_record(&key(20), &key(33));
    accounts.allowance_account_key = record.0;
    let mut store = LedgerStore::new();
    let r = exchange(&tg, &mut store, &accounts, 600, record.1, 77);
    assert_eq!(r.unwrap_err(), ErrorCode::Uninitialized);
}
