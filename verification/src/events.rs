//! Events that the instructions emit on success.

use vstd::prelude::*;
use crate::state::YieldSource;

verus! {

/// The program state was created.
#[derive(Clone, Copy, Debug, PartialEq, Eq)]
pub struct Initialized {
    pub authority: [u8; 32],
    pub fee_bps: u16,
    pub mint: [u8; 32],
    pub draw_interval: i64,
}

/// Tokens were deposited into the vault.
#[derive(Clone, Copy, Debug, PartialEq, Eq)]
pub struct VaultFunded {
    pub amount: u64,
    pub funder: [u8; 32],
    pub vault_balance: u64,
}

/// The fee was changed.
#[derive(Clone, Copy, Debug, PartialEq, Eq)]
pub struct FeeChanged {
    pub new_fee_bps: u16,
}

/// The yield source was changed.
#[derive(Clone, Copy, Debug, PartialEq, Eq)]
pub struct YieldSourceChanged {
    pub new_source: YieldSource,
}

/// A draw was requested.
#[derive(Clone, Copy, Debug, PartialEq, Eq)]
pub struct DrawRequested {
    pub draw_number: u64,
    pub vault_balance: u64,
    pub requested_by: [u8; 32],
    pub timestamp: i64,
}

/// A draw was processed and its prize fixed.
#[derive(Clone, Copy, Debug, PartialEq, Eq)]
pub struct DrawProcessed {
    pub draw_number: u64,
    pub randomness_seed: u64,
    pub prize: u64,
    pub timestamp: i64,
}

/// The prize was paid to the winner.
#[derive(Clone, Copy, Debug, PartialEq, Eq)]
pub struct PrizeDistributed {
    pub winner: [u8; 32],
    pub amount: u64,
    pub draw_number: u64,
}

/// Emergency mode was switched.
#[derive(Clone, Copy, Debug, PartialEq, Eq)]
pub struct EmergencyToggled {
    pub active: bool,
}

/// Tokens were withdrawn from the vault in emergency mode.
#[derive(Clone, Copy, Debug, PartialEq, Eq)]
pub struct EmergencyWithdrawn {
    pub amount: u64,
    pub target: [u8; 32],
}

/// The holder-snapshot Merkle root was replaced.
#[derive(Clone, Copy, Debug, PartialEq, Eq)]
pub struct MerkleRootUpdated {
    pub root: [u8; 32],
}

} // verus!
