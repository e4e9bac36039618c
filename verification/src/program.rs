//! The program's instructions.
//!
//! Each instruction is a function from the state, the signer's key and the
//! raw data of the accounts it reads to the next state and the event to
//! emit. A refused instruction changes nothing. Instructions that move tokens
//! are split in two: the first half checks everything and returns the token
//! transfer to invoke; the second half, run after the transfer succeeded,
//! records its outcome.

use vstd::prelude::*;
use vstd::bytes::{spec_u64_from_le_bytes, u64_from_le_bytes};
use vstd::slice::slice_subrange;
use crate::codec::key_eq;
use crate::error::{ErrorCode, InstructionError};
use crate::events::{
    DrawProcessed, DrawRequested, EmergencyToggled, EmergencyWithdrawn, FeeChanged, Initialized,
    MerkleRootUpdated, PrizeDistributed, VaultFunded, YieldSourceChanged,
};
use crate::merkle::{leaf_hash, merkle_hash_leaf, proof_root, verify_merkle_proof};
use crate::state::{default_key, zero_key, ProgramState, YieldSource, MAX_FEE_BPS, MIN_DRAW_INTERVAL};
use crate::token::{
    is_token_program, is_token_program_spec, read_token_amount, spl_token_transfer_checked,
    token_account_check, token_amount, transfer_checked_accounts, transfer_checked_data,
    validate_token_account, validate_vault_token, Instruction, AMOUNT_OFFSET, TOKEN_2022_PROGRAM_ID,
};

verus! {

// ── Initialization and configuration ──

/// What `initialize` decides, given the vault's raw token-account data, the
/// vault authority and the token program passed in.
pub open spec fn initialize_spec(
    authority: [u8; 32],
    fee_bps: u16,
    draw_interval: i64,
    mint: [u8; 32],
    vault_data: Seq<u8>,
    vault_authority: [u8; 32],
    token_program: [u8; 32],
) -> Result<(ProgramState, Initialized), ErrorCode> {
    if fee_bps > MAX_FEE_BPS {
        Err(ErrorCode::FeeTooHigh)
    } else if fee_bps == 0 {
        Err(ErrorCode::ZeroFee)
    } else if draw_interval < MIN_DRAW_INTERVAL {
        Err(ErrorCode::InvalidInterval)
    } else if !is_token_program_spec(token_program@) {
        Err(ErrorCode::InvalidTokenProgram)
    } else if token_account_check(vault_data, mint@, vault_authority@) is Err {
        Err(token_account_check(vault_data, mint@, vault_authority@)->Err_0)
    } else {
        Ok((
            ProgramState {
                authority,
                fee_bps,
                mint,
                merkle_root: zero_key(),
                vault_balance: 0,
                draw_interval,
                last_draw_at: 0,
                total_draws: 0,
                current_winner: zero_key(),
                current_prize: 0,
                yield_source: YieldSource::NoSource,
                emergency_mode: false,
            },
            Initialized { authority, fee_bps, mint, draw_interval },
        ))
    }
}

/// Creates the program state, with `authority` in charge: the fee must be
/// positive and at most 10%, the draw interval at least an hour, the token
/// program one of the two token programs, and the vault a token account of
/// `mint` held by the vault authority.
pub fn initialize(
    authority: [u8; 32],
    fee_bps: u16,
    draw_interval: i64,
    mint: [u8; 32],
    vault_data: &[u8],
    vault_authority: &[u8; 32],
    token_program: &[u8; 32],
) -> (res: Result<(ProgramState, Initialized), ErrorCode>)
    ensures
        res == initialize_spec(authority, fee_bps, draw_interval, mint, vault_data@, *vault_authority, *token_program),
{
    if fee_bps > MAX_FEE_BPS {
        return Err(ErrorCode::FeeTooHigh);
    }
    if fee_bps == 0 {
        return Err(ErrorCode::ZeroFee);
    }
    if draw_interval < MIN_DRAW_INTERVAL {
        return Err(ErrorCode::InvalidInterval);
    }
    if !is_token_program(token_program) {
        return Err(ErrorCode::InvalidTokenProgram);
    }
    match validate_vault_token(vault_data, &mint, vault_authority) {
        Ok(()) => {},
        Err(e) => return Err(e),
    }
    let state = ProgramState {
        authority,
        fee_bps,
        mint,
        merkle_root: default_key(),
        vault_balance: 0,
        draw_interval,
        last_draw_at: 0,
        total_draws: 0,
        current_winner: default_key(),
        current_prize: 0,
        yield_source: YieldSource::NoSource,
        emergency_mode: false,
    };
    Ok((state, Initialized { authority, fee_bps, mint, draw_interval }))
}

/// What `set_fee` decides.
pub open spec fn set_fee_spec(s: ProgramState, signer: [u8; 32], new_fee_bps: u16) -> Result<(ProgramState, FeeChanged), ErrorCode> {
    if signer != s.authority {
        Err(ErrorCode::Unauthorized)
    } else if new_fee_bps > MAX_FEE_BPS {
        Err(ErrorCode::FeeTooHigh)
    } else {
        Ok((ProgramState { fee_bps: new_fee_bps, ..s }, FeeChanged { new_fee_bps }))
    }
}

/// Changes the fee; only the authority may.
pub fn set_fee(state: &mut ProgramState, signer: &[u8; 32], new_fee_bps: u16) -> (res: Result<FeeChanged, ErrorCode>)
    ensures
        match res {
            Ok(event) => set_fee_spec(*old(state), *signer, new_fee_bps) == Ok::<(ProgramState, FeeChanged), ErrorCode>((*final(state), event)),
            Err(e) => set_fee_spec(*old(state), *signer, new_fee_bps) == Err::<(ProgramState, FeeChanged), ErrorCode>(e) && *final(state) == *old(state),
        },
{
    if !key_eq(signer, &state.authority) {
        return Err(ErrorCode::Unauthorized);
    }
    if new_fee_bps > MAX_FEE_BPS {
        return Err(ErrorCode::FeeTooHigh);
    }
    state.fee_bps = new_fee_bps;
    Ok(FeeChanged { new_fee_bps })
}

/// What `set_yield_source` decides.
pub open spec fn set_yield_source_spec(s: ProgramState, signer: [u8; 32], source: YieldSource) -> Result<(ProgramState, YieldSourceChanged), ErrorCode> {
    if signer != s.authority {
        Err(ErrorCode::Unauthorized)
    } else {
        Ok((ProgramState { yield_source: source, ..s }, YieldSourceChanged { new_source: source }))
    }
}

/// Changes where idle funds go; only the authority may.
pub fn set_yield_source(state: &mut ProgramState, signer: &[u8; 32], source: YieldSource) -> (res: Result<YieldSourceChanged, ErrorCode>)
    ensures
        match res {
            Ok(event) => set_yield_source_spec(*old(state), *signer, source) == Ok::<(ProgramState, YieldSourceChanged), ErrorCode>((*final(state), event)),
            Err(e) => set_yield_source_spec(*old(state), *signer, source) == Err::<(ProgramState, YieldSourceChanged), ErrorCode>(e) && *final(state) == *old(state),
        },
{
    if !key_eq(signer, &state.authority) {
        return Err(ErrorCode::Unauthorized);
    }
    state.yield_source = source;
    Ok(YieldSourceChanged { new_source: source })
}

/// What `set_merkle_root` decides.
pub open spec fn set_merkle_root_spec(s: ProgramState, signer: [u8; 32], root: [u8; 32]) -> Result<(ProgramState, MerkleRootUpdated), ErrorCode> {
    if signer != s.authority {
        Err(ErrorCode::Unauthorized)
    } else {
        Ok((ProgramState { merkle_root: root, ..s }, MerkleRootUpdated { root }))
    }
}

/// Commits a new holder snapshot; only the authority may.
pub fn set_merkle_root(state: &mut ProgramState, signer: &[u8; 32], root: [u8; 32]) -> (res: Result<MerkleRootUpdated, ErrorCode>)
    ensures
        match res {
            Ok(event) => set_merkle_root_spec(*old(state), *signer, root) == Ok::<(ProgramState, MerkleRootUpdated), ErrorCode>((*final(state), event)),
            Err(e) => set_merkle_root_spec(*old(state), *signer, root) == Err::<(ProgramState, MerkleRootUpdated), ErrorCode>(e) && *final(state) == *old(state),
        },
{
    if !key_eq(signer, &state.authority) {
        return Err(ErrorCode::Unauthorized);
    }
    state.merkle_root = root;
    Ok(MerkleRootUpdated { root })
}

/// What `toggle_emergency` decides.
pub open spec fn toggle_emergency_spec(s: ProgramState, signer: [u8; 32]) -> Result<(ProgramState, EmergencyToggled), ErrorCode> {
    if signer != s.authority {
        Err(ErrorCode::Unauthorized)
    } else {
        Ok((ProgramState { emergency_mode: !s.emergency_mode, ..s }, EmergencyToggled { active: !s.emergency_mode }))
    }
}

/// Switches emergency mode on or off; only the authority may.
pub fn toggle_emergency(state: &mut ProgramState, signer: &[u8; 32]) -> (res: Result<EmergencyToggled, ErrorCode>)
    ensures
        match res {
            Ok(event) => toggle_emergency_spec(*old(state), *signer) == Ok::<(ProgramState, EmergencyToggled), ErrorCode>((*final(state), event)),
            Err(e) => toggle_emergency_spec(*old(state), *signer) == Err::<(ProgramState, EmergencyToggled), ErrorCode>(e) && *final(state) == *old(state),
        },
{
    if !key_eq(signer, &state.authority) {
        return Err(ErrorCode::Unauthorized);
    }
    state.emergency_mode = !state.emergency_mode;
    Ok(EmergencyToggled { active: state.emergency_mode })
}

// ── Draws ──

/// What `request_draw` decides, at time `now`, with the vault's raw data.
pub open spec fn request_draw_spec(s: ProgramState, now: i64, vault_data: Seq<u8>, vault_authority: [u8; 32], payer: [u8; 32]) -> Result<(ProgramState, DrawRequested), ErrorCode> {
    if now < s.last_draw_at + s.draw_interval {
        Err(ErrorCode::DrawTooSoon)
    } else if token_account_check(vault_data, s.mint@, vault_authority@) is Err {
        Err(token_account_check(vault_data, s.mint@, vault_authority@)->Err_0)
    } else if token_amount(vault_data) == 0 {
        Err(ErrorCode::EmptyVault)
    } else {
        let amount = token_amount(vault_data);
        Ok((
            ProgramState { vault_balance: amount, current_winner: zero_key(), current_prize: 0, ..s },
            DrawRequested {
                draw_number: (s.total_draws + 1) as u64,
                vault_balance: amount,
                requested_by: payer,
                timestamp: now,
            },
        ))
    }
}

/// Opens a draw once the draw interval has passed since the last one and
/// the vault, a token account of the mint held by the vault authority, holds
/// tokens; clears any unpaid prize.
pub fn request_draw(state: &mut ProgramState, now: i64, vault_data: &[u8], vault_authority: &[u8; 32], payer: [u8; 32]) -> (res: Result<DrawRequested, ErrorCode>)
    requires
        i64::MIN <= old(state).last_draw_at + old(state).draw_interval <= i64::MAX,
        now >= old(state).last_draw_at + old(state).draw_interval
            && token_account_check(vault_data@, old(state).mint@, vault_authority@) is Ok
            && token_amount(vault_data@) > 0
            ==> old(state).total_draws < u64::MAX,
    ensures
        match res {
            Ok(event) => request_draw_spec(*old(state), now, vault_data@, *vault_authority, payer) == Ok::<(ProgramState, DrawRequested), ErrorCode>((*final(state), event)),
            Err(e) => request_draw_spec(*old(state), now, vault_data@, *vault_authority, payer) == Err::<(ProgramState, DrawRequested), ErrorCode>(e) && *final(state) == *old(state),
        },
{
    if now < state.last_draw_at + state.draw_interval {
        return Err(ErrorCode::DrawTooSoon);
    }
    match validate_vault_token(vault_data, &state.mint, vault_authority) {
        Ok(()) => {},
        Err(e) => return Err(e),
    }
    let vault_amount = read_token_amount(vault_data);
    if vault_amount == 0 {
        return Err(ErrorCode::EmptyVault);
    }
    state.vault_balance = vault_amount;
    state.current_winner = default_key();
    state.current_prize = 0;
    Ok(DrawRequested {
        draw_number: state.total_draws + 1,
        vault_balance: state.vault_balance,
        requested_by: payer,
        timestamp: now,
    })
}

/// The seed that a draw's randomness yields: its first 8 bytes, little-endian.
pub open spec fn randomness_seed(randomness: [u8; 32]) -> u64 {
    spec_u64_from_le_bytes(randomness@.subrange(0, 8))
}

/// What `process_draw` decides, at time `now`, with the vault's raw data.
pub open spec fn process_draw_spec(s: ProgramState, now: i64, randomness: [u8; 32], vault_data: Seq<u8>, vault_authority: [u8; 32]) -> Result<(ProgramState, DrawProcessed), ErrorCode> {
    if s.total_draws == u64::MAX {
        Err(ErrorCode::Overflow)
    } else if token_account_check(vault_data, s.mint@, vault_authority@) is Err {
        Err(token_account_check(vault_data, s.mint@, vault_authority@)->Err_0)
    } else {
        let amount = token_amount(vault_data);
        let draws = (s.total_draws + 1) as u64;
        Ok((
            ProgramState {
                last_draw_at: now,
                total_draws: draws,
                vault_balance: amount,
                current_prize: amount,
                ..s
            },
            DrawProcessed { draw_number: draws, randomness_seed: randomness_seed(randomness), prize: amount, timestamp: now },
        ))
    }
}

/// Processes a draw: counts it, stamps its time, and fixes the prize at the
/// balance of the vault, a token account of the mint held by the vault
/// authority.
pub fn process_draw(state: &mut ProgramState, now: i64, randomness: [u8; 32], vault_data: &[u8], vault_authority: &[u8; 32]) -> (res: Result<DrawProcessed, ErrorCode>)
    ensures
        match res {
            Ok(event) => process_draw_spec(*old(state), now, randomness, vault_data@, *vault_authority) == Ok::<(ProgramState, DrawProcessed), ErrorCode>((*final(state), event)),
            Err(e) => process_draw_spec(*old(state), now, randomness, vault_data@, *vault_authority) == Err::<(ProgramState, DrawProcessed), ErrorCode>(e) && *final(state) == *old(state),
        },
{
    let total_draws = match state.total_draws.checked_add(1) {
        Some(n) => n,
        None => return Err(ErrorCode::Overflow),
    };
    match validate_vault_token(vault_data, &state.mint, vault_authority) {
        Ok(()) => {},
        Err(e) => return Err(e),
    }
    let seed = u64_from_le_bytes(slice_subrange(randomness.as_slice(), 0, 8));
    let vault_amount = read_token_amount(vault_data);
    state.last_draw_at = now;
    state.total_draws = total_draws;
    state.vault_balance = vault_amount;
    state.current_prize = state.vault_balance;
    Ok(DrawProcessed {
        draw_number: state.total_draws,
        randomness_seed: seed,
        prize: state.current_prize,
        timestamp: now,
    })
}

// ── Token movements ──

/// Whether `ix` is the Token-2022 transfer of `amount` from `from` to `to`,
/// signed by `authority`.
pub open spec fn is_transfer(ix: Instruction, from: [u8; 32], mint: [u8; 32], to: [u8; 32], authority: [u8; 32], amount: u64) -> bool {
    &&& ix.program_id == TOKEN_2022_PROGRAM_ID
    &&& ix.accounts@ == transfer_checked_accounts(from, mint, to, authority)
    &&& ix.data@ == transfer_checked_data(amount)
}

/// What `fund_vault` checks before the deposit.
pub open spec fn fund_vault_check(
    s: ProgramState,
    amount: u64,
    from_data: Seq<u8>,
    funder: [u8; 32],
    vault_data: Seq<u8>,
    vault_authority: [u8; 32],
    token_program: [u8; 32],
) -> Result<(), ErrorCode> {
    if amount == 0 {
        Err(ErrorCode::ZeroAmount)
    } else if token_account_check(from_data, s.mint@, funder@) is Err {
        token_account_check(from_data, s.mint@, funder@)
    } else if token_account_check(vault_data, s.mint@, vault_authority@) is Err {
        token_account_check(vault_data, s.mint@, vault_authority@)
    } else if !is_token_program_spec(token_program@) {
        Err(ErrorCode::InvalidTokenProgram)
    } else {
        Ok(())
    }
}

/// First half of a manual deposit into the vault: checks the amount, the
/// funder's and the vault's token accounts and the token program, and returns
/// the transfer to invoke, signed by the funder.
pub fn fund_vault(
    state: &ProgramState,
    amount: u64,
    from_key: &[u8; 32],
    from_data: &[u8],
    funder: &[u8; 32],
    vault_key: &[u8; 32],
    vault_data: &[u8],
    vault_authority: &[u8; 32],
    token_program: &[u8; 32],
) -> (res: Result<Instruction, ErrorCode>)
    ensures
        match res {
            Ok(ix) => fund_vault_check(*state, amount, from_data@, *funder, vault_data@, *vault_authority, *token_program) == Ok::<(), ErrorCode>(())
                && is_transfer(ix, *from_key, state.mint, *vault_key, *funder, amount),
            Err(e) => fund_vault_check(*state, amount, from_data@, *funder, vault_data@, *vault_authority, *token_program) == Err::<(), ErrorCode>(e),
        },
{
    if amount == 0 {
        return Err(ErrorCode::ZeroAmount);
    }
    match validate_token_account(from_data, &state.mint, funder) {
        Ok(()) => {},
        Err(e) => return Err(e),
    }
    match validate_vault_token(vault_data, &state.mint, vault_authority) {
        Ok(()) => {},
        Err(e) => return Err(e),
    }
    if !is_token_program(token_program) {
        return Err(ErrorCode::InvalidTokenProgram);
    }
    Ok(spl_token_transfer_checked(from_key, &state.mint, vault_key, funder, amount))
}

/// What the vault's balance and the event are once a deposit went through.
pub open spec fn settle_fund_vault_spec(s: ProgramState, amount: u64, funder: [u8; 32], vault_data: Seq<u8>) -> (ProgramState, VaultFunded) {
    let balance = token_amount(vault_data);
    (ProgramState { vault_balance: balance, ..s }, VaultFunded { amount, funder, vault_balance: balance })
}

/// Second half of a manual deposit: records the vault's new balance.
pub fn settle_fund_vault(state: &mut ProgramState, amount: u64, funder: [u8; 32], vault_data: &[u8]) -> (event: VaultFunded)
    requires
        vault_data@.len() >= AMOUNT_OFFSET + 8,
    ensures
        (*final(state), event) == settle_fund_vault_spec(*old(state), amount, funder, vault_data@),
{
    state.vault_balance = read_token_amount(vault_data);
    VaultFunded { amount, funder, vault_balance: state.vault_balance }
}

/// What `distribute_prize` checks before paying out.
pub open spec fn distribute_prize_check(
    s: ProgramState,
    signer: [u8; 32],
    winner: [u8; 32],
    proof: Seq<[u8; 32]>,
    vault_data: Seq<u8>,
    vault_authority: [u8; 32],
    winner_data: Seq<u8>,
    token_program: [u8; 32],
) -> Result<(), InstructionError> {
    if signer != s.authority {
        Err(InstructionError::ConstraintHasOne)
    } else if s.current_prize == 0 {
        Err(InstructionError::Program(ErrorCode::NoActiveDraw))
    } else if proof_root(leaf_hash(winner@), proof) != s.merkle_root@ {
        Err(InstructionError::Program(ErrorCode::InvalidMerkleProof))
    } else if token_account_check(vault_data, s.mint@, vault_authority@) is Err {
        Err(InstructionError::Program(token_account_check(vault_data, s.mint@, vault_authority@)->Err_0))
    } else if token_account_check(winner_data, s.mint@, winner@) is Err {
        Err(InstructionError::Program(token_account_check(winner_data, s.mint@, winner@)->Err_0))
    } else if !is_token_program_spec(token_program@) {
        Err(InstructionError::Program(ErrorCode::InvalidTokenProgram))
    } else {
        Ok(())
    }
}

/// First half of paying the prize: checks that the signer is the authority,
/// that a processed draw has an unpaid prize, that `proof` shows the winner
/// in the committed holder snapshot, the vault's and the winner's token
/// accounts and the token program, and returns the transfer of the whole
/// prize from the vault to the winner, signed by the vault authority.
pub fn distribute_prize(
    state: &ProgramState,
    signer: &[u8; 32],
    winner: &[u8; 32],
    proof: &[[u8; 32]],
    vault_key: &[u8; 32],
    vault_data: &[u8],
    vault_authority: &[u8; 32],
    winner_token_key: &[u8; 32],
    winner_data: &[u8],
    token_program: &[u8; 32],
) -> (res: Result<Instruction, InstructionError>)
    ensures
        match res {
            Ok(ix) => distribute_prize_check(*state, *signer, *winner, proof@, vault_data@, *vault_authority, winner_data@, *token_program) == Ok::<(), InstructionError>(())
                && is_transfer(ix, *vault_key, state.mint, *winner_token_key, *vault_authority, state.current_prize),
            Err(e) => distribute_prize_check(*state, *signer, *winner, proof@, vault_data@, *vault_authority, winner_data@, *token_program) == Err::<(), InstructionError>(e),
        },
{
    if !key_eq(signer, &state.authority) {
        return Err(InstructionError::ConstraintHasOne);
    }
    let prize = state.current_prize;
    if prize == 0 {
        return Err(InstructionError::Program(ErrorCode::NoActiveDraw));
    }
    let leaf = merkle_hash_leaf(winner);
    if !verify_merkle_proof(&state.merkle_root, &leaf, proof) {
        return Err(InstructionError::Program(ErrorCode::InvalidMerkleProof));
    }
    match validate_vault_token(vault_data, &state.mint, vault_authority) {
        Ok(()) => {},
        Err(e) => return Err(InstructionError::Program(e)),
    }
    match validate_token_account(winner_data, &state.mint, winner) {
        Ok(()) => {},
        Err(e) => return Err(InstructionError::Program(e)),
    }
    if !is_token_program(token_program) {
        return Err(InstructionError::Program(ErrorCode::InvalidTokenProgram));
    }
    Ok(spl_token_transfer_checked(vault_key, &state.mint, winner_token_key, vault_authority, prize))
}

/// The state and the event once the prize went out.
pub open spec fn settle_distribute_prize_spec(s: ProgramState, winner: [u8; 32], vault_data: Seq<u8>) -> (ProgramState, PrizeDistributed) {
    (
        ProgramState { vault_balance: token_amount(vault_data), current_winner: zero_key(), current_prize: 0, ..s },
        PrizeDistributed { winner, amount: s.current_prize, draw_number: s.total_draws },
    )
}

/// Second half of paying the prize: records the vault's new balance and
/// closes the draw.
pub fn settle_distribute_prize(state: &mut ProgramState, winner: [u8; 32], vault_data: &[u8]) -> (event: PrizeDistributed)
    requires
        vault_data@.len() >= AMOUNT_OFFSET + 8,
    ensures
        (*final(state), event) == settle_distribute_prize_spec(*old(state), winner, vault_data@),
{
    let prize = state.current_prize;
    let draw_number = state.total_draws;
    state.vault_balance = read_token_amount(vault_data);
    state.current_winner = default_key();
    state.current_prize = 0;
    PrizeDistributed { winner, amount: prize, draw_number }
}

/// What `emergency_withdraw` checks before withdrawing.
pub open spec fn emergency_withdraw_check(
    s: ProgramState,
    signer: [u8; 32],
    amount: u64,
    vault_data: Seq<u8>,
    vault_authority: [u8; 32],
    target_data: Seq<u8>,
) -> Result<(), InstructionError> {
    if signer != s.authority {
        Err(InstructionError::ConstraintHasOne)
    } else if !s.emergency_mode {
        Err(InstructionError::Program(ErrorCode::EmergencyNotActive))
    } else if amount == 0 {
        Err(InstructionError::Program(ErrorCode::ZeroAmount))
    } else if token_account_check(vault_data, s.mint@, vault_authority@) is Err {
        Err(InstructionError::Program(token_account_check(vault_data, s.mint@, vault_authority@)->Err_0))
    } else if token_account_check(target_data, s.mint@, signer@) is Err {
        Err(InstructionError::Program(token_account_check(target_data, s.mint@, signer@)->Err_0))
    } else if amount > token_amount(vault_data) {
        Err(InstructionError::Program(ErrorCode::InsufficientVaultBalance))
    } else {
        Ok(())
    }
}

/// First half of an emergency withdrawal: checks that the signer is the
/// authority, that emergency mode is on, the amount, the vault's and the
/// authority's token accounts and the vault's balance, and returns the
/// transfer of `amount` from the vault to the authority's account, signed by
/// the vault authority.
pub fn emergency_withdraw(
    state: &ProgramState,
    signer: &[u8; 32],
    amount: u64,
    vault_key: &[u8; 32],
    vault_data: &[u8],
    vault_authority: &[u8; 32],
    target_key: &[u8; 32],
    target_data: &[u8],
) -> (res: Result<Instruction, InstructionError>)
    ensures
        match res {
            Ok(ix) => emergency_withdraw_check(*state, *signer, amount, vault_data@, *vault_authority, target_data@) == Ok::<(), InstructionError>(())
                && is_transfer(ix, *vault_key, state.mint, *target_key, *vault_authority, amount),
            Err(e) => emergency_withdraw_check(*state, *signer, amount, vault_data@, *vault_authority, target_data@) == Err::<(), InstructionError>(e),
        },
{
    if !key_eq(signer, &state.authority) {
        return Err(InstructionError::ConstraintHasOne);
    }
    if !state.emergency_mode {
        return Err(InstructionError::Program(ErrorCode::EmergencyNotActive));
    }
    if amount == 0 {
        return Err(InstructionError::Program(ErrorCode::ZeroAmount));
    }
    match validate_vault_token(vault_data, &state.mint, vault_authority) {
        Ok(()) => {},
        Err(e) => return Err(InstructionError::Program(e)),
    }
    match validate_token_account(target_data, &state.mint, signer) {
        Ok(()) => {},
        Err(e) => return Err(InstructionError::Program(e)),
    }
    let vault_amount = read_token_amount(vault_data);
    if amount > vault_amount {
        return Err(InstructionError::Program(ErrorCode::InsufficientVaultBalance));
    }
    Ok(spl_token_transfer_checked(vault_key, &state.mint, target_key, vault_authority, amount))
}

/// The state and the event once an emergency withdrawal went out.
pub open spec fn settle_emergency_withdraw_spec(s: ProgramState, amount: u64, target: [u8; 32], vault_data: Seq<u8>) -> (ProgramState, EmergencyWithdrawn) {
    (ProgramState { vault_balance: token_amount(vault_data), ..s }, EmergencyWithdrawn { amount, target })
}

/// Second half of an emergency withdrawal: records the vault's new balance.
pub fn settle_emergency_withdraw(state: &mut ProgramState, amount: u64, target: [u8; 32], vault_data: &[u8]) -> (event: EmergencyWithdrawn)
    requires
        vault_data@.len() >= AMOUNT_OFFSET + 8,
    ensures
        (*final(state), event) == settle_emergency_withdraw_spec(*old(state), amount, target, vault_data@),
{
    state.vault_balance = read_token_amount(vault_data);
    EmergencyWithdrawn { amount, target }
}

} // verus!
