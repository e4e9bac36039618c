//! The program's error codes.

use vstd::prelude::*;

verus! {

/// Why an instruction was refused.
#[derive(Clone, Copy, Debug, PartialEq, Eq, Structural)]
pub enum ErrorCode {
    /// Only the program authority can perform this action.
    Unauthorized,
    /// Fee cannot exceed 10% (1000 basis points).
    FeeTooHigh,
    /// Draw interval must be at least 1 hour.
    InvalidInterval,
    /// The draw interval has not elapsed yet.
    DrawTooSoon,
    /// No active draw to set a winner for.
    NoActiveDraw,
    /// Vault balance is zero.
    EmptyVault,
    /// Insufficient vault balance.
    InsufficientVaultBalance,
    /// Emergency mode is not active.
    EmergencyNotActive,
    /// Token account mint does not match.
    TokenMintMismatch,
    /// Token account owner does not match.
    TokenOwnerMismatch,
    /// Token account is not valid.
    InvalidTokenAccount,
    /// Vault token account is not the canonical ATA.
    InvalidVaultToken,
    /// Invalid token program ID.
    InvalidTokenProgram,
    /// Arithmetic overflow detected.
    Overflow,
    /// Amount must be greater than zero.
    ZeroAmount,
    /// Merkle proof does not match the stored root.
    InvalidMerkleProof,
    /// Fee must be greater than zero at initialization.
    ZeroFee,
}

/// Why an instruction guarded by the account constraint `has_one = authority`
/// was refused: the constraint itself, checked before the instruction runs,
/// or one of the program's own error codes.
#[derive(Clone, Copy, Debug, PartialEq, Eq, Structural)]
pub enum InstructionError {
    /// The signing authority is not the one recorded in the program state.
    ConstraintHasOne,
    /// The instruction refused with one of the program's error codes.
    Program(ErrorCode),
}

} // verus!
