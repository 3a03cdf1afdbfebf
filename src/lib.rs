//! Proof-of-work nonce search: a digest-difficulty rule over leading zero
//! bits, one verified search attempt, and a shared cancellation flag.

pub mod difficulty;
pub mod digest;
pub mod miner;
