//! Building the settlement's instructions: the lamport transfer and the
//! token issuance a passed exchange instructs the host to perform.
//!
//! Only the construction lives here — it is a pure computation over the
//! participating addresses and the amount, with a fixed, documented byte
//! layout. Invoking the built instructions is the host's work.

use vstd::bytes::spec_u64_to_le_bytes;
use vstd::prelude::*;

use crate::decode::TOKEN_PROGRAM_ID;
use crate::errors::ErrorCode;
use crate::keys::KeyBytes;

verus! {

/// The system program's identity: the zero key.
pub const SYSTEM_PROGRAM_ID: KeyBytes = [
    0, 0, 0, 0, 0, 0, 0, 0, 0, 0, 0, 0, 0, 0, 0, 0, 0, 0, 0, 0, 0, 0, 0, 0, 0, 0, 0, 0, 0, 0, 0,
    0,
];

/// One account an instruction touches, and how.
#[derive(Clone, Copy, Debug, PartialEq, Eq)]
pub struct InstructionAccount {
    /// The account's address.
    pub key: KeyBytes,
    /// Whether the account must sign the transaction.
    pub is_signer: bool,
    /// Whether the instruction may mutate the account.
    pub is_writable: bool,
}

/// An instruction ready for the host to invoke: the program to call, the
/// accounts it touches, and its data bytes.
#[derive(Clone, Debug, PartialEq, Eq)]
pub struct Instruction {
    /// The program the instruction calls.
    pub program: KeyBytes,
    /// The accounts it touches, in order.
    pub accounts: Vec<InstructionAccount>,
    /// Its serialized data.
    pub data: Vec<u8>,
}

/// Parameters for a token transfer.
pub struct TokenTransferParams {
    /// The source token account.
    pub source: KeyBytes,
    /// The destination token account.
    pub destination: KeyBytes,
    /// The amount of tokens to transfer.
    pub amount: u64,
    /// The owner of the source account.
    pub authority: KeyBytes,
}

/// Parameters for a token issuance.
pub struct TokenMintParams {
    /// The mint being issued from.
    pub mint: KeyBytes,
    /// The destination token account.
    pub destination: KeyBytes,
    /// The amount of tokens to issue.
    pub amount: u64,
    /// The mint's authority.
    pub mint_authority: KeyBytes,
}

/// Whether `i` is the token program's transfer of `params.amount` tokens:
/// the source and destination writable, the authority signing, and the
/// data the transfer tag followed by the little-endian amount.
pub open spec fn is_transfer_instruction(i: Instruction, params: TokenTransferParams) -> bool {
    &&& i.program@ == TOKEN_PROGRAM_ID@
    &&& i.accounts@ == seq![
        (InstructionAccount { key: params.source, is_signer: false, is_writable: true }),
        (InstructionAccount { key: params.destination, is_signer: false, is_writable: true }),
        (InstructionAccount { key: params.authority, is_signer: true, is_writable: false }),
    ]
    &&& i.data@ == seq![3u8] + spec_u64_to_le_bytes(params.amount)
}

/// Whether `i` is the token program's issuance of `params.amount` tokens:
/// the mint and destination writable, the authority signing, and the data
/// the issuance tag followed by the little-endian amount.
pub open spec fn is_mint_instruction(i: Instruction, params: TokenMintParams) -> bool {
    &&& i.program@ == TOKEN_PROGRAM_ID@
    &&& i.accounts@ == seq![
        (InstructionAccount { key: params.mint, is_signer: false, is_writable: true }),
        (InstructionAccount { key: params.destination, is_signer: false, is_writable: true }),
        (InstructionAccount { key: params.mint_authority, is_signer: true, is_writable: false }),
    ]
    &&& i.data@ == seq![7u8] + spec_u64_to_le_bytes(params.amount)
}

/// Whether `i` is the system program's transfer of `lamports`: the payer
/// signing and writable, the recipient writable, and the data the transfer
/// tag followed by the little-endian amount.
pub open spec fn is_lamport_transfer_instruction(
    i: Instruction,
    payer: KeyBytes,
    recipient: KeyBytes,
    lamports: u64,
) -> bool {
    &&& i.program@ == SYSTEM_PROGRAM_ID@
    &&& i.accounts@ == seq![
        (InstructionAccount { key: payer, is_signer: true, is_writable: true }),
        (InstructionAccount { key: recipient, is_signer: false, is_writable: true }),
    ]
    &&& i.data@ == seq![2u8, 0u8, 0u8, 0u8] + spec_u64_to_le_bytes(lamports)
}

/// Relies on `spl_token::instruction::transfer` with the token program's
/// own id and no multisig signers: its source shows that its only failure
/// is a program-id check, which cannot fire for the program's own id, and
/// that it then returns the three account references and the packed
/// transfer data.
#[verifier::external_body]
fn build_spl_transfer(params: &TokenTransferParams) -> (r: Option<Instruction>)
    ensures
        r is Some,
        (match r {
            Some(i) => is_transfer_instruction(i, *params),
            None => true,
        }),
{
    let source = solana_program::pubkey::Pubkey::new_from_array(params.source);
    let destination = solana_program::pubkey::Pubkey::new_from_array(params.destination);
    let authority = solana_program::pubkey::Pubkey::new_from_array(params.authority);
    let built = spl_token::instruction::transfer(
        &spl_token::id(), &source, &destination, &authority, &[], params.amount,
    );
    built.ok().map(|i| Instruction {
        program: i.program_id.to_bytes(),
        accounts: i.accounts.into_iter().map(|m| InstructionAccount { key: m.pubkey.to_bytes(), is_signer: m.is_signer, is_writable: m.is_writable }).collect(),
        data: i.data,
    })
}

/// Relies on `spl_token::instruction::mint_to` with the token program's
/// own id and no multisig signers: its source shows that its only failure
/// is a program-id check, which cannot fire for the program's own id, and
/// that it then returns the three account references and the packed
/// issuance data.
#[verifier::external_body]
fn build_spl_mint_to(params: &TokenMintParams) -> (r: Option<Instruction>)
    ensures
        r is Some,
        (match r {
            Some(i) => is_mint_instruction(i, *params),
            None => true,
        }),
{
    let mint = solana_program::pubkey::Pubkey::new_from_array(params.mint);
    let destination = solana_program::pubkey::Pubkey::new_from_array(params.destination);
    let authority = solana_program::pubkey::Pubkey::new_from_array(params.mint_authority);
    let built = spl_token::instruction::mint_to(
        &spl_token::id(), &mint, &destination, &authority, &[], params.amount,
    );
    built.ok().map(|i| Instruction {
        program: i.program_id.to_bytes(),
        accounts: i.accounts.into_iter().map(|m| InstructionAccount { key: m.pubkey.to_bytes(), is_signer: m.is_signer, is_writable: m.is_writable }).collect(),
        data: i.data,
    })
}

/// Relies on `solana_program::system_instruction::transfer`: it returns
/// the two account references and the serialized transfer, with the payer
/// signing.
#[verifier::external_body]
fn build_system_transfer(payer: &KeyBytes, recipient: &KeyBytes, lamports: u64) -> (r:
    Instruction)
    ensures
        is_lamport_transfer_instruction(r, *payer, *recipient, lamports),
{
    let from = solana_program::pubkey::Pubkey::new_from_array(*payer);
    let to = solana_program::pubkey::Pubkey::new_from_array(*recipient);
    let built = solana_program::system_instruction::transfer(&from, &to, lamports);
    Instruction {
        program: built.program_id.to_bytes(),
        accounts: built.accounts.into_iter().map(|m| InstructionAccount { key: m.pubkey.to_bytes(), is_signer: m.is_signer, is_writable: m.is_writable }).collect(),
        data: built.data,
    }
}

/// Builds the token-transfer instruction for the host to invoke. The
/// construction is a pure function of the parameters and always succeeds.
pub fn spl_token_transfer(params: TokenTransferParams) -> (r: Result<Instruction, ErrorCode>)
    ensures
        r is Ok,
        r matches Ok(i) ==> is_transfer_instruction(i, params),
{
    match build_spl_transfer(&params) {
        Some(i) => Ok(i),
        None => Err(ErrorCode::TokenTransferFailed),
    }
}

/// Builds the token-issuance instruction for the host to invoke. The
/// construction is a pure function of the parameters and always succeeds.
pub fn spl_token_mint(params: TokenMintParams) -> (r: Result<Instruction, ErrorCode>)
    ensures
        r is Ok,
        r matches Ok(i) ==> is_mint_instruction(i, params),
{
    match build_spl_mint_to(&params) {
        Some(i) => Ok(i),
        None => Err(ErrorCode::TokenTransferFailed),
    }
}

/// Builds the lamport-transfer instruction of an authorized settlement.
pub fn transfer_lamports(lamports: u64, payer: &KeyBytes, recipient: &KeyBytes) -> (r:
    Instruction)
    ensures
        is_lamport_transfer_instruction(r, *payer, *recipient, lamports),
{
    build_system_transfer(payer, recipient, lamports)
}

} // verus!
