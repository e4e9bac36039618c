//! On-chain logic of a hold-to-win token: a prize vault fed by transfer
//! fees, periodic draws, and payout to a winner proven to be in a holder
//! snapshot by a Merkle proof.

pub mod codec;
pub mod merkle;
pub mod error;
pub mod token;
pub mod state;
pub mod events;
pub mod program;
pub mod laws;
