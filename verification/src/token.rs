//! Raw token-account reads and the token transfer instruction.
//!
//! Token accounts are read as raw bytes so that both the SPL Token and the
//! Token-2022 programs' accounts are accepted: the mint is at offset 0, the
//! owner at offset 32 and the amount (little-endian `u64`) at offset 64, in
//! both layouts.

use vstd::prelude::*;
use vstd::bytes::{lemma_auto_spec_u64_to_from_le_bytes, spec_u64_from_le_bytes, spec_u64_to_le_bytes, u64_from_le_bytes, u64_to_le_bytes};
use vstd::slice::slice_subrange;
use crate::codec::key_eq;
use crate::error::ErrorCode;

verus! {

/// The SPL Token program (`TokenkegQfeZyiNwAJbNbGKPFXCWuBvf9Ss623VQ5DA`).
pub const TOKEN_PROGRAM_ID: [u8; 32] = [
    6, 221, 246, 225, 215, 101, 161, 147, 217, 203, 225, 70, 206, 235, 121, 172,
    28, 180, 133, 237, 95, 91, 55, 145, 58, 140, 245, 133, 126, 255, 0, 169,
];

/// The Token-2022 program (`TokenzQdBNbLqP5VEhdkAS6EPFLC1PHnBqCXEpPxuEb`).
pub const TOKEN_2022_PROGRAM_ID: [u8; 32] = [
    6, 221, 246, 225, 238, 117, 143, 222, 24, 66, 93, 188, 228, 108, 205, 218,
    182, 26, 252, 77, 131, 185, 13, 39, 254, 189, 249, 40, 216, 161, 139, 252,
];

/// Size of an SPL token account; Token-2022 accounts are at least this long.
pub const TOKEN_ACCOUNT_LEN: usize = 165;

/// Offset of the mint in a token account.
pub const MINT_OFFSET: usize = 0;

/// Offset of the owner in a token account.
pub const OWNER_OFFSET: usize = 32;

/// Offset of the amount in a token account.
pub const AMOUNT_OFFSET: usize = 64;

/// Tag of the `TransferChecked` token instruction.
pub const TRANSFER_CHECKED_TAG: u8 = 12;

/// Decimals of the token's mint.
pub const DECIMALS: u8 = 9;

/// The 32 bytes of `data` at `offset`.
pub open spec fn key_at(data: Seq<u8>, offset: int) -> Seq<u8> {
    data.subrange(offset, offset + 32)
}

/// The amount held by a token account, read from its raw data.
pub open spec fn token_amount(data: Seq<u8>) -> u64 {
    spec_u64_from_le_bytes(data.subrange(AMOUNT_OFFSET as int, AMOUNT_OFFSET + 8))
}

/// What `validate_token_account` decides for raw account data.
pub open spec fn token_account_check(data: Seq<u8>, mint: Seq<u8>, owner: Seq<u8>) -> Result<(), ErrorCode> {
    if data.len() < TOKEN_ACCOUNT_LEN {
        Err(ErrorCode::InvalidTokenAccount)
    } else if key_at(data, MINT_OFFSET as int) != mint {
        Err(ErrorCode::TokenMintMismatch)
    } else if key_at(data, OWNER_OFFSET as int) != owner {
        Err(ErrorCode::TokenOwnerMismatch)
    } else {
        Ok(())
    }
}

/// Whether `key` is one of the two token programs.
pub open spec fn is_token_program_spec(key: Seq<u8>) -> bool {
    key == TOKEN_PROGRAM_ID@ || key == TOKEN_2022_PROGRAM_ID@
}

/// Whether the 32 bytes of `data` at `offset` are `key`.
fn key_matches_at(data: &[u8], offset: usize, key: &[u8; 32]) -> (matches: bool)
    requires
        offset + 32 <= data@.len(),
    ensures
        matches == (key_at(data@, offset as int) == key@),
{
    let len = data.len();
    let mut i: usize = 0;
    while i < 32
        invariant
            i <= 32,
            len == data@.len(),
            offset + 32 <= data@.len(),
            key@.len() == 32,
            forall|j: int| 0 <= j < i ==> data@[offset + j] == key@[j],
        decreases 32 - i,
    {
        if data[offset + i] != key[i] {
            assert(key_at(data@, offset as int)[i as int] != key@[i as int]);
            return false;
        }
        i = i + 1;
    }
    assert(key_at(data@, offset as int) =~= key@);
    true
}

/// Checks that raw token-account data holds at least a full token account,
/// of mint `expected_mint`, owned by `expected_owner`.
pub fn validate_token_account(data: &[u8], expected_mint: &[u8; 32], expected_owner: &[u8; 32]) -> (res: Result<(), ErrorCode>)
    ensures
        res == token_account_check(data@, expected_mint@, expected_owner@),
{
    if data.len() < TOKEN_ACCOUNT_LEN {
        return Err(ErrorCode::InvalidTokenAccount);
    }
    if !key_matches_at(data, MINT_OFFSET, expected_mint) {
        return Err(ErrorCode::TokenMintMismatch);
    }
    if !key_matches_at(data, OWNER_OFFSET, expected_owner) {
        return Err(ErrorCode::TokenOwnerMismatch);
    }
    Ok(())
}

/// Checks the vault's token account: of the mint, owned by the vault
/// authority. The associated-token-address check is not made.
pub fn validate_vault_token(data: &[u8], expected_mint: &[u8; 32], vault_authority: &[u8; 32]) -> (res: Result<(), ErrorCode>)
    ensures
        res == token_account_check(data@, expected_mint@, vault_authority@),
{
    validate_token_account(data, expected_mint, vault_authority)
}

/// Reads the amount held by a token account from its raw data.
pub fn read_token_amount(data: &[u8]) -> (amount: u64)
    requires
        data@.len() >= AMOUNT_OFFSET + 8,
    ensures
        amount == token_amount(data@),
{
    let bytes = slice_subrange(data, AMOUNT_OFFSET, AMOUNT_OFFSET + 8);
    u64_from_le_bytes(bytes)
}

/// Whether `key` is the SPL Token or the Token-2022 program.
pub fn is_token_program(key: &[u8; 32]) -> (is_token: bool)
    ensures
        is_token == is_token_program_spec(key@),
{
    key_eq(key, &TOKEN_PROGRAM_ID) || key_eq(key, &TOKEN_2022_PROGRAM_ID)
}

/// An account that an instruction touches.
#[derive(Clone, Copy, Debug, PartialEq, Eq)]
pub struct AccountMeta {
    pub pubkey: [u8; 32],
    pub is_signer: bool,
    pub is_writable: bool,
}

/// An instruction to another program, to be invoked by the runtime.
#[derive(Debug, PartialEq, Eq)]
pub struct Instruction {
    pub program_id: [u8; 32],
    pub accounts: Vec<AccountMeta>,
    pub data: Vec<u8>,
}

/// The data of a `TransferChecked` instruction for `amount`: the tag, the
/// amount in little-endian order, and the decimals.
pub open spec fn transfer_checked_data(amount: u64) -> Seq<u8> {
    seq![TRANSFER_CHECKED_TAG] + spec_u64_to_le_bytes(amount) + seq![DECIMALS]
}

/// The accounts of a `TransferChecked` instruction: source, mint,
/// destination, and the signing authority.
pub open spec fn transfer_checked_accounts(from: [u8; 32], mint: [u8; 32], to: [u8; 32], authority: [u8; 32]) -> Seq<AccountMeta> {
    seq![
        AccountMeta { pubkey: from, is_signer: false, is_writable: true },
        AccountMeta { pubkey: mint, is_signer: false, is_writable: false },
        AccountMeta { pubkey: to, is_signer: false, is_writable: true },
        AccountMeta { pubkey: authority, is_signer: true, is_writable: false },
    ]
}

/// Builds the Token-2022 `TransferChecked` instruction moving `amount` from
/// `from` to `to`, signed by `authority`.
pub fn spl_token_transfer_checked(from: &[u8; 32], mint: &[u8; 32], to: &[u8; 32], authority: &[u8; 32], amount: u64) -> (ix: Instruction)
    ensures
        ix.program_id == TOKEN_2022_PROGRAM_ID,
        ix.accounts@ == transfer_checked_accounts(*from, *mint, *to, *authority),
        ix.data@ == transfer_checked_data(amount),
{
    let mut data: Vec<u8> = Vec::new();
    data.push(TRANSFER_CHECKED_TAG);
    let mut amount_bytes = u64_to_le_bytes(amount);
    data.append(&mut amount_bytes);
    data.push(DECIMALS);

    let mut accounts: Vec<AccountMeta> = Vec::new();
    accounts.push(AccountMeta { pubkey: *from, is_signer: false, is_writable: true });
    accounts.push(AccountMeta { pubkey: *mint, is_signer: false, is_writable: false });
    accounts.push(AccountMeta { pubkey: *to, is_signer: false, is_writable: true });
    accounts.push(AccountMeta { pubkey: *authority, is_signer: true, is_writable: false });

    assert(data@ =~= transfer_checked_data(amount));
    assert(accounts@ =~= transfer_checked_accounts(*from, *mint, *to, *authority));
    Instruction { program_id: TOKEN_2022_PROGRAM_ID, accounts, data }
}

/// What a token-account check means: data shorter than a token account is
/// invalid; otherwise the mint is bytes 0..32 and the owner bytes 32..64, and
/// the account passes exactly when both match. Bytes past the first 165 (the
/// Token-2022 extensions) play no part, nor does any byte from 64 on.
pub proof fn lemma_token_account_check_meaning(data: Seq<u8>, mint: Seq<u8>, owner: Seq<u8>)
    ensures
        data.len() < 165 ==> token_account_check(data, mint, owner) == Err::<(), ErrorCode>(ErrorCode::InvalidTokenAccount),
        data.len() >= 165 && data.subrange(0, 32) != mint
            ==> token_account_check(data, mint, owner) == Err::<(), ErrorCode>(ErrorCode::TokenMintMismatch),
        data.len() >= 165 && data.subrange(0, 32) == mint && data.subrange(32, 64) != owner
            ==> token_account_check(data, mint, owner) == Err::<(), ErrorCode>(ErrorCode::TokenOwnerMismatch),
        data.len() >= 165 && data.subrange(0, 32) == mint && data.subrange(32, 64) == owner
            ==> token_account_check(data, mint, owner) == Ok::<(), ErrorCode>(()),
{
}

/// Extra bytes after a full token account, such as Token-2022 extensions,
/// change neither the check nor the amount read.
pub proof fn lemma_token_account_extensions(data: Seq<u8>, extra: Seq<u8>, mint: Seq<u8>, owner: Seq<u8>)
    requires
        data.len() >= 165,
    ensures
        token_account_check(data + extra, mint, owner) == token_account_check(data, mint, owner),
        token_amount(data + extra) == token_amount(data),
{
    assert((data + extra).subrange(0, 32) =~= data.subrange(0, 32));
    assert((data + extra).subrange(32, 64) =~= data.subrange(32, 64));
    assert((data + extra).subrange(64, 72) =~= data.subrange(64, 72));
}

/// The amount is the little-endian `u64` in bytes 64..72: its eight
/// little-endian bytes are exactly those bytes.
pub proof fn lemma_token_amount_bytes(data: Seq<u8>)
    requires
        data.len() >= 72,
    ensures
        spec_u64_to_le_bytes(token_amount(data)) == data.subrange(64, 72),
{
    lemma_auto_spec_u64_to_from_le_bytes();
    assert(data.subrange(64, 72).len() == 8);
}

/// The two token programs are exactly the SPL Token program and the
/// Token-2022 program, and they differ.
pub proof fn lemma_token_programs(key: Seq<u8>)
    ensures
        is_token_program_spec(key) <==> (key == TOKEN_PROGRAM_ID@ || key == TOKEN_2022_PROGRAM_ID@),
        TOKEN_PROGRAM_ID@ != TOKEN_2022_PROGRAM_ID@,
{
    assert(TOKEN_PROGRAM_ID@[4] != TOKEN_2022_PROGRAM_ID@[4]);
}

/// A transfer instruction's data is ten bytes: the `TransferChecked` tag 12,
/// the amount whose little-endian bytes follow, and the decimals 9.
pub proof fn lemma_transfer_data_bytes(amount: u64)
    ensures
        transfer_checked_data(amount).len() == 10,
        transfer_checked_data(amount)[0] == 12,
        transfer_checked_data(amount)[9] == 9,
        transfer_checked_data(amount).subrange(1, 9) == spec_u64_to_le_bytes(amount),
        spec_u64_from_le_bytes(transfer_checked_data(amount).subrange(1, 9)) == amount,
{
    lemma_auto_spec_u64_to_from_le_bytes();
    assert(transfer_checked_data(amount).subrange(1, 9) =~= spec_u64_to_le_bytes(amount));
}

} // verus!
