//! Round-lifecycle coordinator for a proof-of-capacity miner.
//!
//! The coordinator tracks the mining round currently published by the pool or
//! node, detects round changes by comparing generation signatures, resets the
//! best-deadline tracking when a new round begins, and decides per nonce
//! candidate whether it is worth submitting. The surrounding process (timers,
//! network client, hashing backend, channels) drives these decision functions;
//! every decision itself is made here and carries a contract.

pub mod candidate;
pub mod poll;
pub mod round;
pub mod state;
