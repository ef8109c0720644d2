//! Replays the mint, burn and swap events of a concentrated-liquidity pool
//! onto an in-memory replica of its tick table and spot-price state.
//!
//! Mint and burn events are deltas on the two boundary ticks of a position;
//! a swap event is an authoritative snapshot of price, liquidity and tick.
//! All arithmetic saturates, so replaying never halts.

pub mod liquidity_math;
pub mod chain_types;
pub mod tick;
pub mod tick_data_provider;
pub mod events;
pub mod pool;
pub mod event_updater;
pub mod laws;
