//! The program's persistent state.

use vstd::prelude::*;

verus! {

/// Highest fee, in basis points (10%).
pub const MAX_FEE_BPS: u16 = 1000;

/// Shortest interval between draws, in seconds (one hour).
pub const MIN_DRAW_INTERVAL: i64 = 3600;

/// The all-zero key, which stands for "no address".
pub open spec fn zero_key() -> [u8; 32] {
    [0u8; 32usize]
}

/// The all-zero key, `Pubkey::default()`.
pub fn default_key() -> (key: [u8; 32])
    ensures
        key == zero_key(),
{
    [0u8; 32usize]
}

/// Where the vault's idle funds are put to work.
#[derive(Clone, Copy, Debug, PartialEq, Eq)]
pub enum YieldSource {
    /// No yield source.
    NoSource,
    MarinadeSolStaking,
    KaminoLending,
    JupiterLP,
    Custom([u8; 32]),
}

/// The program's single state account.
#[derive(Clone, Copy, Debug, PartialEq, Eq)]
pub struct ProgramState {
    /// Who may change the configuration and pay out prizes.
    pub authority: [u8; 32],
    /// Transfer fee, in basis points.
    pub fee_bps: u16,
    /// The token's mint.
    pub mint: [u8; 32],
    /// Merkle root of the current holder snapshot.
    pub merkle_root: [u8; 32],
    /// Vault balance when it was last read.
    pub vault_balance: u64,
    /// Seconds that must pass between draws.
    pub draw_interval: i64,
    /// Time of the last processed draw.
    pub last_draw_at: i64,
    /// Number of processed draws.
    pub total_draws: u64,
    /// Kept at the all-zero key: winners are paid directly.
    pub current_winner: [u8; 32],
    /// Prize of the processed draw not yet paid out, or 0.
    pub current_prize: u64,
    /// Where idle funds are invested.
    pub yield_source: YieldSource,
    /// Whether the emergency withdrawal is enabled.
    pub emergency_mode: bool,
}

impl ProgramState {
    /// Space of the state account: discriminator, fields, and reserve.
    pub const LEN: usize = 8 + 32 + 2 + 32 + 32 + 8 + 8 + 8 + 8 + 32 + 8 + 2 + 1 + 96;

    /// What every state the program creates or leaves behind satisfies.
    pub open spec fn wf(&self) -> bool {
        &&& self.fee_bps <= MAX_FEE_BPS
        &&& self.draw_interval >= MIN_DRAW_INTERVAL
        &&& self.current_winner == zero_key()
    }
}

} // verus!
