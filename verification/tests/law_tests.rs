use anchor_lang::solana_program::hash::hash;
use luckietoken::error::{ErrorCode, InstructionError};
use luckietoken::merkle::{leaf_bytes, merkle_hash_leaf, merkle_hash_pair, node_bytes, verify_merkle_proof, LEAF_PREFIX, NODE_PREFIX};
use luckietoken::program::{
    distribute_prize, emergency_withdraw, fund_vault, initialize, process_draw, request_draw,
    set_fee, set_merkle_root, set_yield_source, settle_distribute_prize, toggle_emergency,
};
use luckietoken::state::{ProgramState, YieldSource, MIN_DRAW_INTERVAL};
use luckietoken::token::{
    is_token_program, read_token_amount, spl_token_transfer_checked, validate_token_account,
    validate_vault_token, AccountMeta, TOKEN_2022_PROGRAM_ID, TOKEN_PROGRAM_ID,
};

const AUTHORITY: [u8; 32] = [7u8; 32];
const MINT: [u8; 32] = [8u8; 32];
const VAULT_AUTHORITY: [u8; 32] = [9u8; 32];
const VAULT_KEY: [u8; 32] = [10u8; 32];
const STRANGER: [u8; 32] = [66u8; 32];

fn token_account(mint: [u8; 32], owner: [u8; 32], amount: u64) -> Vec<u8> {
    let mut data = vec![0u8; 165];
    data[0..32].copy_from_slice(&mint);
    data[32..64].copy_from_slice(&owner);
    data[64..72].copy_from_slice(&amount.to_le_bytes());
    data
}

fn vault(amount: u64) -> Vec<u8> {
    token_account(MINT, VAULT_AUTHORITY, amount)
}

fn fresh_state() -> ProgramState {
    initialize(AUTHORITY, 300, 86400, MINT, &vault(0), &VAULT_AUTHORITY, &TOKEN_2022_PROGRAM_ID).unwrap().0
}

#[test]
fn interval_below_one_hour_is_refused() {
    assert_eq!(initialize(AUTHORITY, 300, MIN_DRAW_INTERVAL - 1, MINT, &vault(0), &VAULT_AUTHORITY, &TOKEN_2022_PROGRAM_ID), Err(ErrorCode::InvalidInterval));
    assert!(initialize(AUTHORITY, 300, MIN_DRAW_INTERVAL, MINT, &vault(0), &VAULT_AUTHORITY, &TOKEN_2022_PROGRAM_ID).is_ok());
}

#[test]
fn state_size_matches_layout() {
    assert_eq!(ProgramState::LEN, 277);
}

#[test]
fn only_authority_configures() {
    let mut state = fresh_state();
    let before = state;
    assert_eq!(set_fee(&mut state, &STRANGER, 10), Err(ErrorCode::Unauthorized));
    assert_eq!(set_yield_source(&mut state, &STRANGER, YieldSource::KaminoLending), Err(ErrorCode::Unauthorized));
    assert_eq!(set_merkle_root(&mut state, &STRANGER, [1u8; 32]), Err(ErrorCode::Unauthorized));
    assert_eq!(toggle_emergency(&mut state, &STRANGER), Err(ErrorCode::Unauthorized));
    assert_eq!(state, before);
    assert_eq!(
        distribute_prize(&state, &STRANGER, &[1u8; 32], &[], &VAULT_KEY, &vault(5), &VAULT_AUTHORITY, &[2u8; 32], &vault(0), &TOKEN_PROGRAM_ID),
        Err(InstructionError::ConstraintHasOne)
    );
    assert_eq!(
        emergency_withdraw(&state, &STRANGER, 1, &VAULT_KEY, &vault(5), &VAULT_AUTHORITY, &[2u8; 32], &vault(0)),
        Err(InstructionError::ConstraintHasOne)
    );
}

#[test]
fn toggling_twice_restores_state() {
    let mut state = fresh_state();
    let before = state;
    toggle_emergency(&mut state, &AUTHORITY).unwrap();
    assert_ne!(state, before);
    toggle_emergency(&mut state, &AUTHORITY).unwrap();
    assert_eq!(state, before);
}

#[test]
fn empty_vault_cannot_be_drawn() {
    let mut state = fresh_state();
    assert_eq!(request_draw(&mut state, 86400, &vault(0), &VAULT_AUTHORITY, [4u8; 32]), Err(ErrorCode::EmptyVault));
}

#[test]
fn processed_draw_fixes_prize_and_seed() {
    let mut state = fresh_state();
    let mut randomness = [0u8; 32];
    randomness[0] = 1;
    randomness[1] = 2;
    let event = process_draw(&mut state, 1234, randomness, &vault(777), &VAULT_AUTHORITY).unwrap();
    assert_eq!(event.randomness_seed, 0x0201);
    assert_eq!(event.prize, 777);
    assert_eq!(event.draw_number, 1);
    assert_eq!(event.timestamp, 1234);
    assert_eq!(state.last_draw_at, 1234);
    assert_eq!(state.current_prize, 777);
    assert_eq!(state.vault_balance, 777);
}

#[test]
fn request_then_process_agree_on_draw_number() {
    let mut state = fresh_state();
    let requested = request_draw(&mut state, 86400, &vault(50), &VAULT_AUTHORITY, [4u8; 32]).unwrap();
    let processed = process_draw(&mut state, 86401, [9u8; 32], &vault(60), &VAULT_AUTHORITY).unwrap();
    assert_eq!(requested.draw_number, processed.draw_number);
    assert_eq!(state.current_prize, 60);
}

#[test]
fn prize_is_paid_once() {
    let mut state = fresh_state();
    let winner = [1u8; 32];
    set_merkle_root(&mut state, &AUTHORITY, merkle_hash_leaf(&winner)).unwrap();
    assert_eq!(
        distribute_prize(&state, &AUTHORITY, &winner, &[], &VAULT_KEY, &vault(5), &VAULT_AUTHORITY, &[2u8; 32], &token_account(MINT, winner, 0), &TOKEN_PROGRAM_ID),
        Err(InstructionError::Program(ErrorCode::NoActiveDraw))
    );
    process_draw(&mut state, 10, [0u8; 32], &vault(5), &VAULT_AUTHORITY).unwrap();
    let winner_token = token_account(MINT, winner, 0);
    assert!(distribute_prize(&state, &AUTHORITY, &winner, &[], &VAULT_KEY, &vault(5), &VAULT_AUTHORITY, &[2u8; 32], &winner_token, &TOKEN_PROGRAM_ID).is_ok());
    settle_distribute_prize(&mut state, winner, &vault(0));
    assert_eq!(
        distribute_prize(&state, &AUTHORITY, &winner, &[], &VAULT_KEY, &vault(0), &VAULT_AUTHORITY, &[2u8; 32], &winner_token, &TOKEN_PROGRAM_ID),
        Err(InstructionError::Program(ErrorCode::NoActiveDraw))
    );
}

#[test]
fn distribute_prize_refusals() {
    let mut state = fresh_state();
    let winner = [1u8; 32];
    set_merkle_root(&mut state, &AUTHORITY, merkle_hash_leaf(&winner)).unwrap();
    process_draw(&mut state, 10, [0u8; 32], &vault(5), &VAULT_AUTHORITY).unwrap();
    let winner_token = token_account(MINT, winner, 0);
    // Not in the snapshot.
    assert_eq!(
        distribute_prize(&state, &AUTHORITY, &[3u8; 32], &[], &VAULT_KEY, &vault(5), &VAULT_AUTHORITY, &[2u8; 32], &token_account(MINT, [3u8; 32], 0), &TOKEN_PROGRAM_ID),
        Err(InstructionError::Program(ErrorCode::InvalidMerkleProof))
    );
    // Vault owned by someone else.
    assert_eq!(
        distribute_prize(&state, &AUTHORITY, &winner, &[], &VAULT_KEY, &token_account(MINT, STRANGER, 5), &VAULT_AUTHORITY, &[2u8; 32], &winner_token, &TOKEN_PROGRAM_ID),
        Err(InstructionError::Program(ErrorCode::TokenOwnerMismatch))
    );
    // Winner's account of another mint.
    assert_eq!(
        distribute_prize(&state, &AUTHORITY, &winner, &[], &VAULT_KEY, &vault(5), &VAULT_AUTHORITY, &[2u8; 32], &token_account(STRANGER, winner, 0), &TOKEN_PROGRAM_ID),
        Err(InstructionError::Program(ErrorCode::TokenMintMismatch))
    );
    // Unknown token program.
    assert_eq!(
        distribute_prize(&state, &AUTHORITY, &winner, &[], &VAULT_KEY, &vault(5), &VAULT_AUTHORITY, &[2u8; 32], &winner_token, &STRANGER),
        Err(InstructionError::Program(ErrorCode::InvalidTokenProgram))
    );
}

#[test]
fn emergency_withdraw_rules() {
    let mut state = fresh_state();
    let target = token_account(MINT, AUTHORITY, 0);
    assert_eq!(
        emergency_withdraw(&state, &AUTHORITY, 1, &VAULT_KEY, &vault(5), &VAULT_AUTHORITY, &[2u8; 32], &target),
        Err(InstructionError::Program(ErrorCode::EmergencyNotActive))
    );
    toggle_emergency(&mut state, &AUTHORITY).unwrap();
    assert_eq!(
        emergency_withdraw(&state, &AUTHORITY, 0, &VAULT_KEY, &vault(5), &VAULT_AUTHORITY, &[2u8; 32], &target),
        Err(InstructionError::Program(ErrorCode::ZeroAmount))
    );
    let ix = emergency_withdraw(&state, &AUTHORITY, 5, &VAULT_KEY, &vault(5), &VAULT_AUTHORITY, &[2u8; 32], &target).unwrap();
    assert_eq!(ix.accounts[0].pubkey, VAULT_KEY);
    assert_eq!(ix.accounts[2].pubkey, [2u8; 32]);
    assert_eq!(ix.accounts[3].pubkey, VAULT_AUTHORITY);
    assert_eq!(ix.data[1..9], 5u64.to_le_bytes());
}

#[test]
fn fund_vault_rules() {
    let state = fresh_state();
    let from = token_account(MINT, AUTHORITY, 100);
    let from_key = [12u8; 32];
    assert_eq!(
        fund_vault(&state, 0, &from_key, &from, &AUTHORITY, &VAULT_KEY, &vault(0), &VAULT_AUTHORITY, &TOKEN_PROGRAM_ID),
        Err(ErrorCode::ZeroAmount)
    );
    assert_eq!(
        fund_vault(&state, 5, &from_key, &from[..100], &AUTHORITY, &VAULT_KEY, &vault(0), &VAULT_AUTHORITY, &TOKEN_PROGRAM_ID),
        Err(ErrorCode::InvalidTokenAccount)
    );
    assert_eq!(
        fund_vault(&state, 5, &from_key, &from, &STRANGER, &VAULT_KEY, &vault(0), &VAULT_AUTHORITY, &TOKEN_PROGRAM_ID),
        Err(ErrorCode::TokenOwnerMismatch)
    );
    assert_eq!(
        fund_vault(&state, 5, &from_key, &from, &AUTHORITY, &VAULT_KEY, &vault(0), &VAULT_AUTHORITY, &STRANGER),
        Err(ErrorCode::InvalidTokenProgram)
    );
    let ix = fund_vault(&state, 5, &from_key, &from, &AUTHORITY, &VAULT_KEY, &vault(0), &VAULT_AUTHORITY, &TOKEN_2022_PROGRAM_ID).unwrap();
    assert_eq!(ix.program_id, TOKEN_2022_PROGRAM_ID);
    assert_eq!(ix.accounts[0].pubkey, from_key);
    assert_eq!(ix.accounts[2].pubkey, VAULT_KEY);
    assert_eq!(ix.accounts[3], AccountMeta { pubkey: AUTHORITY, is_signer: true, is_writable: false });
}

#[test]
fn token_account_validation() {
    let data = token_account(MINT, AUTHORITY, 42);
    assert_eq!(validate_token_account(&data, &MINT, &AUTHORITY), Ok(()));
    assert_eq!(validate_token_account(&data[..164], &MINT, &AUTHORITY), Err(ErrorCode::InvalidTokenAccount));
    assert_eq!(validate_token_account(&data, &STRANGER, &AUTHORITY), Err(ErrorCode::TokenMintMismatch));
    assert_eq!(validate_vault_token(&data, &MINT, &STRANGER), Err(ErrorCode::TokenOwnerMismatch));
    assert_eq!(read_token_amount(&data), 42);
    assert_eq!(read_token_amount(&token_account(MINT, AUTHORITY, u64::MAX)), u64::MAX);
}

#[test]
fn token_program_ids() {
    assert!(is_token_program(&TOKEN_PROGRAM_ID));
    assert!(is_token_program(&TOKEN_2022_PROGRAM_ID));
    assert!(!is_token_program(&STRANGER));
    assert_eq!(anchor_lang::prelude::Pubkey::new_from_array(TOKEN_PROGRAM_ID).to_string(), "TokenkegQfeZyiNwAJbNbGKPFXCWuBvf9Ss623VQ5DA");
    assert_eq!(anchor_lang::prelude::Pubkey::new_from_array(TOKEN_2022_PROGRAM_ID).to_string(), "TokenzQdBNbLqP5VEhdkAS6EPFLC1PHnBqCXEpPxuEb");
}

#[test]
fn transfer_instruction_layout() {
    let ix = spl_token_transfer_checked(&[1u8; 32], &[2u8; 32], &[3u8; 32], &[4u8; 32], 0x0102030405060708);
    assert_eq!(ix.program_id, TOKEN_2022_PROGRAM_ID);
    assert_eq!(ix.data, vec![12, 8, 7, 6, 5, 4, 3, 2, 1, 9]);
    assert_eq!(
        ix.accounts,
        vec![
            AccountMeta { pubkey: [1u8; 32], is_signer: false, is_writable: true },
            AccountMeta { pubkey: [2u8; 32], is_signer: false, is_writable: false },
            AccountMeta { pubkey: [3u8; 32], is_signer: false, is_writable: true },
            AccountMeta { pubkey: [4u8; 32], is_signer: true, is_writable: false },
        ]
    );
}

#[test]
fn preimages_are_domain_separated() {
    let a = [1u8; 32];
    let b = [2u8; 32];
    let leaf = leaf_bytes(&a);
    assert_eq!(&leaf[..12], b"luckie:leaf:");
    assert_eq!(&leaf[12..], &a);
    assert_eq!(LEAF_PREFIX, *b"luckie:leaf:");
    assert_eq!(NODE_PREFIX, *b"luckie:node:");
    let node = node_bytes(&b, &a);
    assert_eq!(&node[..12], b"luckie:node:");
    assert_eq!(&node[12..44], &a);
    assert_eq!(&node[44..], &b);
    assert_eq!(node, node_bytes(&a, &b));
    assert_ne!(leaf, node);
}

#[test]
fn pair_hash_is_sha256_of_sorted_children() {
    let a = [5u8; 32];
    let mut b = [5u8; 32];
    b[31] = 4;
    let mut expected = Vec::from(b"luckie:node:" as &[u8]);
    expected.extend_from_slice(&b);
    expected.extend_from_slice(&a);
    assert_eq!(merkle_hash_pair(&a, &b), hash(&expected).to_bytes());
    assert_eq!(merkle_hash_pair(&a, &a), merkle_hash_pair(&a, &a));
}

#[test]
fn sibling_path_of_three_level_tree() {
    let leaves: Vec<[u8; 32]> = (1u8..=8).map(|i| merkle_hash_leaf(&[i; 32])).collect();
    let l1: Vec<[u8; 32]> = leaves.chunks(2).map(|p| merkle_hash_pair(&p[0], &p[1])).collect();
    let l2: Vec<[u8; 32]> = l1.chunks(2).map(|p| merkle_hash_pair(&p[1], &p[0])).collect();
    let root = merkle_hash_pair(&l2[0], &l2[1]);
    for i in 0..8 {
        let proof = [leaves[i ^ 1], l1[(i / 2) ^ 1], l2[(i / 4) ^ 1]];
        assert!(verify_merkle_proof(&root, &leaves[i], &proof));
        assert!(!verify_merkle_proof(&root, &leaves[i], &proof[..2]));
    }
}

#[test]
fn initialize_refusals() {
    let ok = |fee: u16| initialize(AUTHORITY, fee, 86400, MINT, &vault(0), &VAULT_AUTHORITY, &TOKEN_PROGRAM_ID);
    assert_eq!(ok(0), Err(ErrorCode::ZeroFee));
    assert!(ok(1).is_ok());
    assert_eq!(
        initialize(AUTHORITY, 300, 86400, MINT, &vault(0), &VAULT_AUTHORITY, &STRANGER),
        Err(ErrorCode::InvalidTokenProgram)
    );
    assert_eq!(
        initialize(AUTHORITY, 300, 86400, MINT, &vault(0)[..100], &VAULT_AUTHORITY, &TOKEN_PROGRAM_ID),
        Err(ErrorCode::InvalidTokenAccount)
    );
    assert_eq!(
        initialize(AUTHORITY, 300, 86400, MINT, &token_account(STRANGER, VAULT_AUTHORITY, 0), &VAULT_AUTHORITY, &TOKEN_PROGRAM_ID),
        Err(ErrorCode::TokenMintMismatch)
    );
    assert_eq!(
        initialize(AUTHORITY, 300, 86400, MINT, &token_account(MINT, STRANGER, 0), &VAULT_AUTHORITY, &TOKEN_PROGRAM_ID),
        Err(ErrorCode::TokenOwnerMismatch)
    );
}

#[test]
fn draw_needs_the_vault_account() {
    let mut state = fresh_state();
    let before = state;
    assert_eq!(
        request_draw(&mut state, 86400, &token_account(STRANGER, VAULT_AUTHORITY, 5), &VAULT_AUTHORITY, [4u8; 32]),
        Err(ErrorCode::TokenMintMismatch)
    );
    assert_eq!(
        request_draw(&mut state, 86400, &token_account(MINT, STRANGER, 5), &VAULT_AUTHORITY, [4u8; 32]),
        Err(ErrorCode::TokenOwnerMismatch)
    );
    assert_eq!(
        request_draw(&mut state, 86400, &vault(5)[..72], &VAULT_AUTHORITY, [4u8; 32]),
        Err(ErrorCode::InvalidTokenAccount)
    );
    assert_eq!(state, before);
}

#[test]
fn prize_comes_from_the_vault_account() {
    let mut state = fresh_state();
    let before = state;
    // An account of another owner holding more than the vault is refused.
    assert_eq!(
        process_draw(&mut state, 10, [0u8; 32], &token_account(MINT, STRANGER, 2), &VAULT_AUTHORITY),
        Err(ErrorCode::TokenOwnerMismatch)
    );
    assert_eq!(
        process_draw(&mut state, 10, [0u8; 32], &token_account(STRANGER, VAULT_AUTHORITY, 2), &VAULT_AUTHORITY),
        Err(ErrorCode::TokenMintMismatch)
    );
    assert_eq!(
        process_draw(&mut state, 10, [0u8; 32], &vault(2)[..72], &VAULT_AUTHORITY),
        Err(ErrorCode::InvalidTokenAccount)
    );
    assert_eq!(state, before);
    let event = process_draw(&mut state, 10, [0u8; 32], &vault(1), &VAULT_AUTHORITY).unwrap();
    assert_eq!(event.prize, 1);
    assert_eq!(state.current_prize, 1);
}
