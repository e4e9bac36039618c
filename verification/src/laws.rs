//! Properties that span the instructions.

use vstd::prelude::*;
use vstd::bytes::{lemma_auto_spec_u64_to_from_le_bytes, spec_u64_from_le_bytes, spec_u64_to_le_bytes};
use crate::error::{ErrorCode, InstructionError};
use crate::events::{DrawProcessed, DrawRequested, EmergencyToggled, FeeChanged, Initialized, MerkleRootUpdated, YieldSourceChanged};
use crate::merkle::{leaf_hash, proof_root};
use crate::program::{
    distribute_prize_check, fund_vault_check, emergency_withdraw_check, initialize_spec, process_draw_spec,
    request_draw_spec, set_fee_spec, set_merkle_root_spec, set_yield_source_spec,
    settle_distribute_prize_spec, settle_emergency_withdraw_spec, settle_fund_vault_spec,
    toggle_emergency_spec, is_transfer,
};
use crate::state::{zero_key, ProgramState, YieldSource, MAX_FEE_BPS, MIN_DRAW_INTERVAL};
use crate::token::{is_token_program_spec, token_account_check, token_amount, transfer_checked_data, Instruction, TOKEN_2022_PROGRAM_ID};

verus! {

/// Every state the program creates satisfies `wf`, and every instruction,
/// accepted or refused, keeps it: the fee never exceeds 10%, the draw
/// interval never drops below an hour, and no winner is ever stored.
pub proof fn lemma_instructions_keep_wf(
    s: ProgramState,
    authority: [u8; 32],
    signer: [u8; 32],
    fee_bps: u16,
    draw_interval: i64,
    mint: [u8; 32],
    vault_authority: [u8; 32],
    token_program: [u8; 32],
    source: YieldSource,
    root: [u8; 32],
    now: i64,
    randomness: [u8; 32],
    vault_data: Seq<u8>,
    amount: u64,
    account: [u8; 32],
)
    requires
        s.wf(),
    ensures
        initialize_spec(authority, fee_bps, draw_interval, mint, vault_data, vault_authority, token_program) is Ok
            ==> initialize_spec(authority, fee_bps, draw_interval, mint, vault_data, vault_authority, token_program)->Ok_0.0.wf(),
        set_fee_spec(s, signer, fee_bps) is Ok ==> set_fee_spec(s, signer, fee_bps)->Ok_0.0.wf(),
        set_yield_source_spec(s, signer, source) is Ok ==> set_yield_source_spec(s, signer, source)->Ok_0.0.wf(),
        set_merkle_root_spec(s, signer, root) is Ok ==> set_merkle_root_spec(s, signer, root)->Ok_0.0.wf(),
        toggle_emergency_spec(s, signer) is Ok ==> toggle_emergency_spec(s, signer)->Ok_0.0.wf(),
        request_draw_spec(s, now, vault_data, vault_authority, account) is Ok
            ==> request_draw_spec(s, now, vault_data, vault_authority, account)->Ok_0.0.wf(),
        process_draw_spec(s, now, randomness, vault_data, vault_authority) is Ok
            ==> process_draw_spec(s, now, randomness, vault_data, vault_authority)->Ok_0.0.wf(),
        settle_fund_vault_spec(s, amount, account, vault_data).0.wf(),
        settle_distribute_prize_spec(s, account, vault_data).0.wf(),
        settle_emergency_withdraw_spec(s, amount, account, vault_data).0.wf(),
{
}

/// Only the recorded authority can change the configuration, pay out a
/// prize or withdraw in an emergency; anyone else is refused.
pub proof fn lemma_only_authority(
    s: ProgramState,
    signer: [u8; 32],
    fee_bps: u16,
    source: YieldSource,
    root: [u8; 32],
    winner: [u8; 32],
    proof: Seq<[u8; 32]>,
    vault_data: Seq<u8>,
    vault_authority: [u8; 32],
    account_data: Seq<u8>,
    token_program: [u8; 32],
    amount: u64,
)
    requires
        signer != s.authority,
    ensures
        set_fee_spec(s, signer, fee_bps) == Err::<(ProgramState, FeeChanged), ErrorCode>(ErrorCode::Unauthorized),
        set_yield_source_spec(s, signer, source) == Err::<(ProgramState, YieldSourceChanged), ErrorCode>(ErrorCode::Unauthorized),
        set_merkle_root_spec(s, signer, root) == Err::<(ProgramState, MerkleRootUpdated), ErrorCode>(ErrorCode::Unauthorized),
        toggle_emergency_spec(s, signer) == Err::<(ProgramState, EmergencyToggled), ErrorCode>(ErrorCode::Unauthorized),
        distribute_prize_check(s, signer, winner, proof, vault_data, vault_authority, account_data, token_program)
            == Err::<(), InstructionError>(InstructionError::ConstraintHasOne),
        emergency_withdraw_check(s, signer, amount, vault_data, vault_authority, account_data)
            == Err::<(), InstructionError>(InstructionError::ConstraintHasOne),
{
}

/// Toggling emergency mode twice restores the state.
pub proof fn lemma_toggle_twice_restores(s: ProgramState, signer: [u8; 32])
    requires
        toggle_emergency_spec(s, signer) is Ok,
    ensures
        toggle_emergency_spec(toggle_emergency_spec(s, signer)->Ok_0.0, signer) is Ok,
        toggle_emergency_spec(toggle_emergency_spec(s, signer)->Ok_0.0, signer)->Ok_0.0 == s,
{
}

/// A draw is opened only once the draw interval has passed since the last
/// processed draw, and only over a non-empty vault account of the mint held
/// by the vault authority.
pub proof fn lemma_draw_interval_enforced(s: ProgramState, now: i64, vault_data: Seq<u8>, vault_authority: [u8; 32], payer: [u8; 32])
    ensures
        request_draw_spec(s, now, vault_data, vault_authority, payer) is Ok <==> (now >= s.last_draw_at + s.draw_interval
            && token_account_check(vault_data, s.mint@, vault_authority@) is Ok
            && token_amount(vault_data) > 0),
        now < s.last_draw_at + s.draw_interval ==> request_draw_spec(s, now, vault_data, vault_authority, payer)
            == Err::<(ProgramState, DrawRequested), ErrorCode>(ErrorCode::DrawTooSoon),
{
}

/// The state is created only with a positive fee of at most 10%, an interval
/// of at least an hour, a token program, and a vault account of the mint
/// held by the vault authority.
pub proof fn lemma_initialize_checks(
    authority: [u8; 32],
    fee_bps: u16,
    draw_interval: i64,
    mint: [u8; 32],
    vault_data: Seq<u8>,
    vault_authority: [u8; 32],
    token_program: [u8; 32],
)
    ensures
        initialize_spec(authority, fee_bps, draw_interval, mint, vault_data, vault_authority, token_program) is Ok
            <==> (0 < fee_bps <= MAX_FEE_BPS && draw_interval >= MIN_DRAW_INTERVAL
                && is_token_program_spec(token_program@)
                && token_account_check(vault_data, mint@, vault_authority@) is Ok),
{
}

/// The draw that `process_draw` counts is the one `request_draw` announced,
/// and its prize is the whole vault balance read when it is processed.
pub proof fn lemma_request_then_process(
    s: ProgramState,
    requested_at: i64,
    processed_at: i64,
    randomness: [u8; 32],
    vault_at_request: Seq<u8>,
    vault_at_process: Seq<u8>,
    vault_authority: [u8; 32],
    payer: [u8; 32],
)
    requires
        request_draw_spec(s, requested_at, vault_at_request, vault_authority, payer) is Ok,
        process_draw_spec(request_draw_spec(s, requested_at, vault_at_request, vault_authority, payer)->Ok_0.0, processed_at, randomness, vault_at_process, vault_authority) is Ok,
    ensures
        ({
            let (s1, requested) = request_draw_spec(s, requested_at, vault_at_request, vault_authority, payer)->Ok_0;
            let (s2, processed) = process_draw_spec(s1, processed_at, randomness, vault_at_process, vault_authority)->Ok_0;
            &&& processed.draw_number == requested.draw_number
            &&& s2.total_draws == s.total_draws + 1
            &&& s2.current_prize == token_amount(vault_at_process)
            &&& s2.last_draw_at == processed_at
        }),
{
}

/// A draw's prize is the balance of the program's vault: a processed draw
/// reads it only from a token account of the mint held by the vault
/// authority, and fixes the prize at exactly that account's amount.
pub proof fn lemma_prize_is_vault_balance(
    s: ProgramState,
    now: i64,
    randomness: [u8; 32],
    vault_data: Seq<u8>,
    vault_authority: [u8; 32],
)
    requires
        process_draw_spec(s, now, randomness, vault_data, vault_authority) is Ok,
    ensures
        token_account_check(vault_data, s.mint@, vault_authority@) is Ok,
        process_draw_spec(s, now, randomness, vault_data, vault_authority)->Ok_0.0.current_prize == token_amount(vault_data),
        process_draw_spec(s, now, randomness, vault_data, vault_authority)->Ok_0.0.current_prize
            == process_draw_spec(s, now, randomness, vault_data, vault_authority)->Ok_0.0.vault_balance,
{
}

/// A prize is paid out at most once: once the payout is recorded, paying out
/// again is refused until another draw is processed.
pub proof fn lemma_no_double_payout(
    s: ProgramState,
    winner: [u8; 32],
    vault_after: Seq<u8>,
    signer: [u8; 32],
    other_winner: [u8; 32],
    proof: Seq<[u8; 32]>,
    vault_data: Seq<u8>,
    vault_authority: [u8; 32],
    winner_data: Seq<u8>,
    token_program: [u8; 32],
)
    ensures
        ({
            let s1 = settle_distribute_prize_spec(s, winner, vault_after).0;
            distribute_prize_check(s1, signer, other_winner, proof, vault_data, vault_authority, winner_data, token_program) is Err
        }),
{
}

/// A prize goes out only to an address that the committed holder snapshot
/// contains, by the authority, while a processed draw's prize is unpaid, from
/// a vault account of the token's mint held by the vault authority, to an
/// account of that mint owned by the winner, through a token program.
pub proof fn lemma_payout_requires_membership(
    s: ProgramState,
    signer: [u8; 32],
    winner: [u8; 32],
    proof: Seq<[u8; 32]>,
    vault_data: Seq<u8>,
    vault_authority: [u8; 32],
    winner_data: Seq<u8>,
    token_program: [u8; 32],
)
    requires
        distribute_prize_check(s, signer, winner, proof, vault_data, vault_authority, winner_data, token_program) is Ok,
    ensures
        signer == s.authority,
        s.current_prize > 0,
        proof_root(leaf_hash(winner@), proof) == s.merkle_root@,
        token_account_check(vault_data, s.mint@, vault_authority@) is Ok,
        token_account_check(winner_data, s.mint@, winner@) is Ok,
        is_token_program_spec(token_program@),
{
}

/// A deposit is accepted only for a positive amount, from an account of the
/// token's mint owned by the signing funder, into a vault account of that mint
/// held by the vault authority, through a token program.
pub proof fn lemma_deposit_checks(
    s: ProgramState,
    amount: u64,
    from_data: Seq<u8>,
    funder: [u8; 32],
    vault_data: Seq<u8>,
    vault_authority: [u8; 32],
    token_program: [u8; 32],
)
    requires
        fund_vault_check(s, amount, from_data, funder, vault_data, vault_authority, token_program) is Ok,
    ensures
        amount > 0,
        token_account_check(from_data, s.mint@, funder@) is Ok,
        token_account_check(vault_data, s.mint@, vault_authority@) is Ok,
        is_token_program_spec(token_program@),
{
}

/// An emergency withdrawal is allowed only in emergency mode, and never for
/// nothing or for more than the vault holds.
pub proof fn lemma_emergency_withdraw_bounded(
    s: ProgramState,
    signer: [u8; 32],
    amount: u64,
    vault_data: Seq<u8>,
    vault_authority: [u8; 32],
    target_data: Seq<u8>,
)
    requires
        emergency_withdraw_check(s, signer, amount, vault_data, vault_authority, target_data) is Ok,
    ensures
        s.emergency_mode,
        signer == s.authority,
        0 < amount <= token_amount(vault_data),
{
}

/// The amount a transfer instruction carries reads back as the amount it
/// was built for.
pub proof fn lemma_transfer_amount_roundtrip(amount: u64)
    ensures
        transfer_checked_data(amount).len() == 10,
        spec_u64_from_le_bytes(transfer_checked_data(amount).subrange(1, 9)) == amount,
{
    lemma_auto_spec_u64_to_from_le_bytes();
    assert(transfer_checked_data(amount).subrange(1, 9) =~= spec_u64_to_le_bytes(amount));
}

/// Processing a draw succeeds exactly when the counter can grow and the vault
/// account checks out. It then counts the draw, stamps it with `now`, fixes
/// the prize at the vault's amount, leaves everything else as it was, and
/// publishes as seed the number whose eight little-endian bytes are the first
/// eight bytes of the randomness.
pub proof fn lemma_process_draw_outcome(
    s: ProgramState,
    now: i64,
    randomness: [u8; 32],
    vault_data: Seq<u8>,
    vault_authority: [u8; 32],
)
    ensures
        process_draw_spec(s, now, randomness, vault_data, vault_authority) is Ok
            <==> (s.total_draws < u64::MAX && token_account_check(vault_data, s.mint@, vault_authority@) is Ok),
        s.total_draws == u64::MAX ==> process_draw_spec(s, now, randomness, vault_data, vault_authority)
            == Err::<(ProgramState, DrawProcessed), ErrorCode>(ErrorCode::Overflow),
        process_draw_spec(s, now, randomness, vault_data, vault_authority) is Ok ==> ({
            let (s2, event) = process_draw_spec(s, now, randomness, vault_data, vault_authority)->Ok_0;
            &&& s2.total_draws == s.total_draws + 1
            &&& s2.last_draw_at == now
            &&& s2.current_prize == token_amount(vault_data)
            &&& s2.vault_balance == token_amount(vault_data)
            &&& s2 == ProgramState { total_draws: s2.total_draws, last_draw_at: now, current_prize: s2.current_prize, vault_balance: s2.vault_balance, ..s }
            &&& event.draw_number == s2.total_draws
            &&& event.prize == s2.current_prize
            &&& event.timestamp == now
            &&& spec_u64_to_le_bytes(event.randomness_seed) == randomness@.subrange(0, 8)
        }),
{
    lemma_auto_spec_u64_to_from_le_bytes();
    assert(randomness@.subrange(0, 8).len() == 8);
}

/// The seed depends on the first eight bytes of the randomness alone.
pub proof fn lemma_seed_ignores_rest(
    s: ProgramState,
    now: i64,
    r1: [u8; 32],
    r2: [u8; 32],
    vault_data: Seq<u8>,
    vault_authority: [u8; 32],
)
    requires
        r1@.subrange(0, 8) == r2@.subrange(0, 8),
        process_draw_spec(s, now, r1, vault_data, vault_authority) is Ok,
    ensures
        process_draw_spec(s, now, r2, vault_data, vault_authority) is Ok,
        process_draw_spec(s, now, r1, vault_data, vault_authority)->Ok_0.1.randomness_seed
            == process_draw_spec(s, now, r2, vault_data, vault_authority)->Ok_0.1.randomness_seed,
{
    lemma_process_draw_outcome(s, now, r1, vault_data, vault_authority);
    lemma_process_draw_outcome(s, now, r2, vault_data, vault_authority);
    lemma_auto_spec_u64_to_from_le_bytes();
    let a = process_draw_spec(s, now, r1, vault_data, vault_authority)->Ok_0.1.randomness_seed;
    let b = process_draw_spec(s, now, r2, vault_data, vault_authority)->Ok_0.1.randomness_seed;
    assert(spec_u64_from_le_bytes(spec_u64_to_le_bytes(a)) == a);
    assert(spec_u64_from_le_bytes(spec_u64_to_le_bytes(b)) == b);
}

/// A payout is refused only for a stated reason: by the authority, with an
/// unpaid prize, a proof that reaches the committed root, both token accounts
/// passing their checks and a token program, it is accepted.
pub proof fn lemma_payout_accepted(
    s: ProgramState,
    signer: [u8; 32],
    winner: [u8; 32],
    proof: Seq<[u8; 32]>,
    vault_data: Seq<u8>,
    vault_authority: [u8; 32],
    winner_data: Seq<u8>,
    token_program: [u8; 32],
)
    requires
        signer == s.authority,
        s.current_prize > 0,
        proof_root(leaf_hash(winner@), proof) == s.merkle_root@,
        token_account_check(vault_data, s.mint@, vault_authority@) is Ok,
        token_account_check(winner_data, s.mint@, winner@) is Ok,
        is_token_program_spec(token_program@),
    ensures
        distribute_prize_check(s, signer, winner, proof, vault_data, vault_authority, winner_data, token_program)
            == Ok::<(), InstructionError>(()),
{
}

/// An emergency withdrawal is refused only for a stated reason: by the
/// authority, in emergency mode, with both token accounts passing their
/// checks and `0 < amount <= ` the vault's amount, it is accepted.
pub proof fn lemma_emergency_withdraw_accepted(
    s: ProgramState,
    signer: [u8; 32],
    amount: u64,
    vault_data: Seq<u8>,
    vault_authority: [u8; 32],
    target_data: Seq<u8>,
)
    requires
        signer == s.authority,
        s.emergency_mode,
        token_account_check(vault_data, s.mint@, vault_authority@) is Ok,
        token_account_check(target_data, s.mint@, signer@) is Ok,
        0 < amount <= token_amount(vault_data),
    ensures
        emergency_withdraw_check(s, signer, amount, vault_data, vault_authority, target_data)
            == Ok::<(), InstructionError>(()),
{
}

/// A deposit is refused only for a stated reason: a positive amount, both
/// token accounts passing their checks and a token program make it accepted.
pub proof fn lemma_deposit_accepted(
    s: ProgramState,
    amount: u64,
    from_data: Seq<u8>,
    funder: [u8; 32],
    vault_data: Seq<u8>,
    vault_authority: [u8; 32],
    token_program: [u8; 32],
)
    requires
        amount > 0,
        token_account_check(from_data, s.mint@, funder@) is Ok,
        token_account_check(vault_data, s.mint@, vault_authority@) is Ok,
        is_token_program_spec(token_program@),
    ensures
        fund_vault_check(s, amount, from_data, funder, vault_data, vault_authority, token_program)
            == Ok::<(), ErrorCode>(()),
{
}

/// An opened draw announces the next draw number, records the vault's
/// amount, clears any unpaid prize, and changes nothing else. (With the
/// counter at its maximum the next number overflows; `request_draw` rules
/// that input out.)
pub proof fn lemma_request_draw_outcome(s: ProgramState, now: i64, vault_data: Seq<u8>, vault_authority: [u8; 32], payer: [u8; 32])
    requires
        s.total_draws < u64::MAX,
        request_draw_spec(s, now, vault_data, vault_authority, payer) is Ok,
    ensures
        ({
            let (s2, event) = request_draw_spec(s, now, vault_data, vault_authority, payer)->Ok_0;
            &&& event.draw_number == s.total_draws + 1
            &&& event.vault_balance == token_amount(vault_data)
            &&& event.requested_by == payer
            &&& event.timestamp == now
            &&& s2.vault_balance == token_amount(vault_data)
            &&& s2.current_prize == 0
            &&& s2.total_draws == s.total_draws
            &&& s2.last_draw_at == s.last_draw_at
            &&& s2 == ProgramState { vault_balance: s2.vault_balance, current_prize: 0, current_winner: s2.current_winner, ..s }
        }),
{
}

/// Recording a payout reports the whole unpaid prize for the current draw,
/// then closes the draw and records the vault's new amount.
pub proof fn lemma_settle_payout_outcome(s: ProgramState, winner: [u8; 32], vault_after: Seq<u8>)
    ensures
        ({
            let (s2, event) = settle_distribute_prize_spec(s, winner, vault_after);
            &&& event.amount == s.current_prize
            &&& event.winner == winner
            &&& event.draw_number == s.total_draws
            &&& s2.current_prize == 0
            &&& s2.vault_balance == token_amount(vault_after)
            &&& s2.total_draws == s.total_draws
            &&& s2.merkle_root == s.merkle_root
        }),
{
}

/// The configuration instructions change exactly the field they name, and
/// succeed whenever the authority signs (and, for the fee, it is at most 10%).
pub proof fn lemma_configuration_outcomes(s: ProgramState, fee_bps: u16, source: YieldSource, root: [u8; 32])
    ensures
        fee_bps <= MAX_FEE_BPS ==> set_fee_spec(s, s.authority, fee_bps)
            == Ok::<(ProgramState, FeeChanged), ErrorCode>((ProgramState { fee_bps, ..s }, FeeChanged { new_fee_bps: fee_bps })),
        fee_bps > MAX_FEE_BPS ==> set_fee_spec(s, s.authority, fee_bps)
            == Err::<(ProgramState, FeeChanged), ErrorCode>(ErrorCode::FeeTooHigh),
        set_yield_source_spec(s, s.authority, source)
            == Ok::<(ProgramState, YieldSourceChanged), ErrorCode>((ProgramState { yield_source: source, ..s }, YieldSourceChanged { new_source: source })),
        set_merkle_root_spec(s, s.authority, root)
            == Ok::<(ProgramState, MerkleRootUpdated), ErrorCode>((ProgramState { merkle_root: root, ..s }, MerkleRootUpdated { root })),
        toggle_emergency_spec(s, s.authority) is Ok,
        toggle_emergency_spec(s, s.authority)->Ok_0.0.emergency_mode != s.emergency_mode,
        toggle_emergency_spec(s, s.authority)->Ok_0.1.active != s.emergency_mode,
{
}

/// The fee is capped at 1000 basis points (10%) and draws are at least an
/// hour (3600 seconds) apart.
pub proof fn lemma_limits()
    ensures
        MAX_FEE_BPS == 1000,
        MIN_DRAW_INTERVAL == 3600,
{
}

/// A created state is run by the given authority for the given mint, fee and
/// interval, with no draw, no prize, no snapshot, an empty recorded vault,
/// no yield source and emergency mode off; the event repeats the settings.
pub proof fn lemma_initialize_outcome(
    authority: [u8; 32],
    fee_bps: u16,
    draw_interval: i64,
    mint: [u8; 32],
    vault_data: Seq<u8>,
    vault_authority: [u8; 32],
    token_program: [u8; 32],
)
    requires
        initialize_spec(authority, fee_bps, draw_interval, mint, vault_data, vault_authority, token_program) is Ok,
    ensures
        ({
            let (s, event) = initialize_spec(authority, fee_bps, draw_interval, mint, vault_data, vault_authority, token_program)->Ok_0;
            &&& s.authority == authority
            &&& s.mint == mint
            &&& s.fee_bps == fee_bps
            &&& s.draw_interval == draw_interval
            &&& s.total_draws == 0
            &&& s.last_draw_at == 0
            &&& s.current_prize == 0
            &&& s.vault_balance == 0
            &&& s.merkle_root == zero_key()
            &&& s.current_winner == zero_key()
            &&& s.yield_source == YieldSource::NoSource
            &&& !s.emergency_mode
            &&& event == Initialized { authority, fee_bps, mint, draw_interval }
        }),
{
}

/// Which error a refused creation gives: a fee over 10%, then a zero fee,
/// then an interval under an hour, then a foreign token program, then the
/// vault account's own error.
pub proof fn lemma_initialize_errors(
    authority: [u8; 32],
    fee_bps: u16,
    draw_interval: i64,
    mint: [u8; 32],
    vault_data: Seq<u8>,
    vault_authority: [u8; 32],
    token_program: [u8; 32],
)
    ensures
        ({
            let r = initialize_spec(authority, fee_bps, draw_interval, mint, vault_data, vault_authority, token_program);
            &&& fee_bps > 1000 ==> r == Err::<(ProgramState, Initialized), ErrorCode>(ErrorCode::FeeTooHigh)
            &&& fee_bps == 0 ==> r == Err::<(ProgramState, Initialized), ErrorCode>(ErrorCode::ZeroFee)
            &&& 0 < fee_bps <= 1000 && draw_interval < 3600 ==> r == Err::<(ProgramState, Initialized), ErrorCode>(ErrorCode::InvalidInterval)
            &&& 0 < fee_bps <= 1000 && draw_interval >= 3600 && !is_token_program_spec(token_program@)
                ==> r == Err::<(ProgramState, Initialized), ErrorCode>(ErrorCode::InvalidTokenProgram)
            &&& 0 < fee_bps <= 1000 && draw_interval >= 3600 && is_token_program_spec(token_program@)
                && token_account_check(vault_data, mint@, vault_authority@) is Err
                ==> r == Err::<(ProgramState, Initialized), ErrorCode>(token_account_check(vault_data, mint@, vault_authority@)->Err_0)
        }),
{
}

/// Which error a refused payout gives, cause by cause, once the causes
/// before it are ruled out.
pub proof fn lemma_payout_errors(
    s: ProgramState,
    winner: [u8; 32],
    proof: Seq<[u8; 32]>,
    vault_data: Seq<u8>,
    vault_authority: [u8; 32],
    winner_data: Seq<u8>,
    token_program: [u8; 32],
)
    ensures
        ({
            let r = distribute_prize_check(s, s.authority, winner, proof, vault_data, vault_authority, winner_data, token_program);
            let member = proof_root(leaf_hash(winner@), proof) == s.merkle_root@;
            &&& s.current_prize == 0 ==> r == Err::<(), InstructionError>(InstructionError::Program(ErrorCode::NoActiveDraw))
            &&& s.current_prize > 0 && !member ==> r == Err::<(), InstructionError>(InstructionError::Program(ErrorCode::InvalidMerkleProof))
            &&& s.current_prize > 0 && member && token_account_check(vault_data, s.mint@, vault_authority@) is Err
                ==> r == Err::<(), InstructionError>(InstructionError::Program(token_account_check(vault_data, s.mint@, vault_authority@)->Err_0))
            &&& s.current_prize > 0 && member && token_account_check(vault_data, s.mint@, vault_authority@) is Ok
                && token_account_check(winner_data, s.mint@, winner@) is Err
                ==> r == Err::<(), InstructionError>(InstructionError::Program(token_account_check(winner_data, s.mint@, winner@)->Err_0))
            &&& s.current_prize > 0 && member && token_account_check(vault_data, s.mint@, vault_authority@) is Ok
                && token_account_check(winner_data, s.mint@, winner@) is Ok && !is_token_program_spec(token_program@)
                ==> r == Err::<(), InstructionError>(InstructionError::Program(ErrorCode::InvalidTokenProgram))
        }),
{
}

/// Which error a refused emergency withdrawal gives, cause by cause, once
/// the causes before it are ruled out.
pub proof fn lemma_emergency_withdraw_errors(
    s: ProgramState,
    amount: u64,
    vault_data: Seq<u8>,
    vault_authority: [u8; 32],
    target_data: Seq<u8>,
)
    ensures
        ({
            let r = emergency_withdraw_check(s, s.authority, amount, vault_data, vault_authority, target_data);
            let accounts_ok = token_account_check(vault_data, s.mint@, vault_authority@) is Ok
                && token_account_check(target_data, s.mint@, s.authority@) is Ok;
            &&& !s.emergency_mode ==> r == Err::<(), InstructionError>(InstructionError::Program(ErrorCode::EmergencyNotActive))
            &&& s.emergency_mode && amount == 0 ==> r == Err::<(), InstructionError>(InstructionError::Program(ErrorCode::ZeroAmount))
            &&& s.emergency_mode && amount > 0 && token_account_check(vault_data, s.mint@, vault_authority@) is Err
                ==> r == Err::<(), InstructionError>(InstructionError::Program(token_account_check(vault_data, s.mint@, vault_authority@)->Err_0))
            &&& s.emergency_mode && amount > 0 && token_account_check(vault_data, s.mint@, vault_authority@) is Ok
                && token_account_check(target_data, s.mint@, s.authority@) is Err
                ==> r == Err::<(), InstructionError>(InstructionError::Program(token_account_check(target_data, s.mint@, s.authority@)->Err_0))
            &&& s.emergency_mode && accounts_ok && amount > token_amount(vault_data)
                ==> r == Err::<(), InstructionError>(InstructionError::Program(ErrorCode::InsufficientVaultBalance))
        }),
{
}

/// Which error a refused deposit gives, cause by cause.
pub proof fn lemma_deposit_errors(
    s: ProgramState,
    amount: u64,
    from_data: Seq<u8>,
    funder: [u8; 32],
    vault_data: Seq<u8>,
    vault_authority: [u8; 32],
    token_program: [u8; 32],
)
    ensures
        ({
            let r = fund_vault_check(s, amount, from_data, funder, vault_data, vault_authority, token_program);
            &&& amount == 0 ==> r == Err::<(), ErrorCode>(ErrorCode::ZeroAmount)
            &&& amount > 0 && token_account_check(from_data, s.mint@, funder@) is Err
                ==> r == token_account_check(from_data, s.mint@, funder@)
            &&& amount > 0 && token_account_check(from_data, s.mint@, funder@) is Ok
                && token_account_check(vault_data, s.mint@, vault_authority@) is Err
                ==> r == token_account_check(vault_data, s.mint@, vault_authority@)
            &&& amount > 0 && token_account_check(from_data, s.mint@, funder@) is Ok
                && token_account_check(vault_data, s.mint@, vault_authority@) is Ok && !is_token_program_spec(token_program@)
                ==> r == Err::<(), ErrorCode>(ErrorCode::InvalidTokenProgram)
        }),
{
}

/// Recording a deposit or an emergency withdrawal records the vault's new
/// amount, changes nothing else, and reports what it was given.
pub proof fn lemma_settle_transfers_outcome(s: ProgramState, amount: u64, account: [u8; 32], vault_after: Seq<u8>)
    ensures
        settle_fund_vault_spec(s, amount, account, vault_after).0 == (ProgramState { vault_balance: token_amount(vault_after), ..s }),
        settle_fund_vault_spec(s, amount, account, vault_after).1.amount == amount,
        settle_fund_vault_spec(s, amount, account, vault_after).1.funder == account,
        settle_fund_vault_spec(s, amount, account, vault_after).1.vault_balance == token_amount(vault_after),
        settle_emergency_withdraw_spec(s, amount, account, vault_after).0 == (ProgramState { vault_balance: token_amount(vault_after), ..s }),
        settle_emergency_withdraw_spec(s, amount, account, vault_after).1.amount == amount,
        settle_emergency_withdraw_spec(s, amount, account, vault_after).1.target == account,
{
}

/// A transfer instruction goes to the Token-2022 program, carries the tag 12,
/// the amount and the decimals 9, names the source, the mint, the
/// destination and the authority in that order, lets only the source and the
/// destination be written, and asks only the authority to sign.
pub proof fn lemma_transfer_meaning(ix: Instruction, from: [u8; 32], mint: [u8; 32], to: [u8; 32], authority: [u8; 32], amount: u64)
    requires
        is_transfer(ix, from, mint, to, authority, amount),
    ensures
        ix.program_id == TOKEN_2022_PROGRAM_ID,
        ix.data@.len() == 10,
        ix.data@[0] == 12,
        ix.data@[9] == 9,
        spec_u64_from_le_bytes(ix.data@.subrange(1, 9)) == amount,
        ix.accounts@.len() == 4,
        ix.accounts@[0].pubkey == from,
        ix.accounts@[1].pubkey == mint,
        ix.accounts@[2].pubkey == to,
        ix.accounts@[3].pubkey == authority,
        ix.accounts@[0].is_writable && ix.accounts@[2].is_writable,
        !ix.accounts@[1].is_writable && !ix.accounts@[3].is_writable,
        ix.accounts@[3].is_signer,
        !ix.accounts@[0].is_signer && !ix.accounts@[1].is_signer && !ix.accounts@[2].is_signer,
{
    lemma_transfer_amount_roundtrip(amount);
}

} // verus!
