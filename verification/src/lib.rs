//! Verified core of a Zephyr indexer for fixed-term liquidity pools:
//! period arithmetic, decoding of pool storage into pool records, and the
//! preparation of simulated pool transactions.

pub mod events;
pub mod maths;
pub mod pools;
pub mod simulation;
pub mod strkey;
pub mod types;
