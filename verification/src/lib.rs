//! Proof-of-work gated token minting engine.
//!
//! A participant mines tokens by finding a nonce that, hashed together with
//! the current puzzle hash and the participant's own identity, produces a
//! digest beginning with a fixed magic prefix. Each accepted claim advances
//! the puzzle hash (preventing replay), counts toward the mining totals, and
//! earns a fixed reward. Difficulty is adjusted lazily at epoch boundaries.

pub mod hashing;
pub mod puzzle;
pub mod state;
