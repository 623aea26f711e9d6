//! The persisted puzzle record and the engine's error type.

use vstd::prelude::*;

verus! {

/// The single persisted puzzle record: the current proof-of-work target,
/// the difficulty, and the mining counters.
#[derive(Clone, Debug, PartialEq, Eq)]
pub struct Pluto {
    /// Nominal epoch index. Seeded to zero; no transition advances it.
    pub epoch: u64,
    /// Height at which the current difficulty epoch began.
    pub epoch_start_block: u64,
    /// Lifetime count of accepted claims.
    pub total_mined: u64,
    /// Count of accepted claims within the current epoch. The policy only
    /// ever resets this counter or compares it against the threshold; no
    /// transition increments it.
    pub mined_this_epoch: u64,
    /// Current puzzle target seed: the value a solution must extend.
    pub hash: [u8; 32],
    /// Difficulty: how many leading bytes of a candidate digest must match
    /// the magic template.
    pub diff: u8,
    /// Reward amount minted per accepted claim.
    pub tokens: u64,
}

/// Why a claim was refused.
#[derive(Clone, Copy, Debug, PartialEq, Eq)]
pub enum ClaimError {
    /// The nonce does not satisfy the current difficulty, or the stored
    /// difficulty exceeds the 32-byte template (the engine fails closed).
    InvalidClaim,
}

} // verus!
