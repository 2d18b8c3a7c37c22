//! Tests of the settlement instruction builders, held against the token
//! and system programs' own builders.

use token_guard::decode::TOKEN_PROGRAM_ID;
use token_guard::token_utils::{spl_token_mint, spl_token_transfer, transfer_lamports, TokenMintParams, TokenTransferParams, SYSTEM_PROGRAM_ID};

fn key(tag: u8) -> [u8; 32] {
    let mut bytes = [0u8; 32];
    bytes[0] = tag;
    bytes[31] = 0x77;
    bytes
}

#[test]
fn token_transfer_instruction_layout() {
    let built = spl_token_transfer(TokenTransferParams {
        source: key(1),
        destination: key(2),
        amount: 513,
        authority: key(3),
    })
    .unwrap();
    assert_eq!(built.program, TOKEN_PROGRAM_ID);
    assert_eq!(built.data[0], 3);
    assert_eq!(&built.data[1..], &513u64.to_le_bytes());
    assert_eq!(built.accounts.len(), 3);
    assert_eq!(built.accounts[0].key, key(1));
    assert!(built.accounts[0].is_writable && !built.accounts[0].is_signer);
    assert_eq!(built.accounts[1].key, key(2));
    assert!(built.accounts[1].is_writable && !built.accounts[1].is_signer);
    assert_eq!(built.accounts[2].key, key(3));
    assert!(built.accounts[2].is_signer && !built.accounts[2].is_writable);
}

#[test]
fn token_mint_instruction_layout() {
    let built = spl_token_mint(TokenMintParams {
        mint: key(4),
        destination: key(5),
        amount: 9_999,
        mint_authority: key(6),
    })
    .unwrap();
    assert_eq!(built.program, TOKEN_PROGRAM_ID);
    assert_eq!(built.data[0], 7);
    assert_eq!(&built.data[1..], &9_999u64.to_le_bytes());
    assert_eq!(built.accounts.len(), 3);
    assert_eq!(built.accounts[0].key, key(4));
    assert!(built.accounts[0].is_writable && !built.accounts[0].is_signer);
    assert_eq!(built.accounts[1].key, key(5));
    assert_eq!(built.accounts[2].key, key(6));
    assert!(built.accounts[2].is_signer && !built.accounts[2].is_writable);
}

#[test]
fn lamport_transfer_instruction_layout() {
    let built = transfer_lamports(321, &key(7), &key(8));
    assert_eq!(built.program, SYSTEM_PROGRAM_ID);
    assert_eq!(
        built.program,
        solana_program::system_program::id().to_bytes()
    );
    assert_eq!(&built.data[..4], &[2, 0, 0, 0]);
    assert_eq!(&built.data[4..], &321u64.to_le_bytes());
    assert_eq!(built.accounts.len(), 2);
    assert_eq!(built.accounts[0].key, key(7));
    assert!(built.accounts[0].is_signer && built.accounts[0].is_writable);
    assert_eq!(built.accounts[1].key, key(8));
    assert!(!built.accounts[1].is_signer && built.accounts[1].is_writable);
}

#[test]
fn instructions_match_the_programs_own_builders() {
    let reference = spl_token::instruction::transfer(
        &spl_token::id(),
        &solana_program::pubkey::Pubkey::new_from_array(key(1)),
        &solana_program::pubkey::Pubkey::new_from_array(key(2)),
        &solana_program::pubkey::Pubkey::new_from_array(key(3)),
        &[],
        513,
    )
    .unwrap();
    let built = spl_token_transfer(TokenTransferParams {
        source: key(1),
        destination: key(2),
        amount: 513,
        authority: key(3),
    })
    .unwrap();
    assert_eq!(built.data, reference.data);
    assert_eq!(built.accounts.len(), reference.accounts.len());
    for (mine, theirs) in built.accounts.iter().zip(reference.accounts.iter()) {
        assert_eq!(mine.key, theirs.pubkey.to_bytes());
        assert_eq!(mine.is_signer, theirs.is_signer);
        assert_eq!(mine.is_writable, theirs.is_writable);
    }
}
