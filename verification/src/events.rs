//! The decoded events of a pool, as the replica consumes them.
//!
//! Each record carries the number of the block that emitted it, where that
//! is known. The replica keeps it as provenance and orders nothing by it.

use alloy_primitives::aliases::{I256, U160};
use vstd::prelude::*;

verus! {

/// Liquidity `amount` was added to the position between two boundaries.
#[derive(Clone, Copy, Debug, PartialEq, Eq)]
pub struct MintEvent {
    pub block_number: Option<u64>,
    pub tick_lower: i32,
    pub tick_upper: i32,
    pub amount: u128,
}

/// Liquidity `amount` was taken from the position between two boundaries.
#[derive(Clone, Copy, Debug, PartialEq, Eq)]
pub struct BurnEvent {
    pub block_number: Option<u64>,
    pub tick_lower: i32,
    pub tick_upper: i32,
    pub amount: u128,
}

/// A swap moved the price. `sqrt_price_x96`, `liquidity` and `tick` are the
/// pool's values after the swap; the two amounts are informational.
#[derive(Clone, Copy, Debug, PartialEq, Eq)]
pub struct SwapEvent {
    pub block_number: Option<u64>,
    pub amount0: I256,
    pub amount1: I256,
    pub sqrt_price_x96: U160,
    pub liquidity: u128,
    pub tick: i32,
}

/// One event of a pool's log.
#[derive(Clone, Copy, Debug, PartialEq, Eq)]
pub enum PoolEvent {
    Mint(MintEvent),
    Burn(BurnEvent),
    Swap(SwapEvent),
}

impl MintEvent {
    /// A position lies between two distinct boundaries, the lower one first.
    pub open spec fn valid(&self) -> bool {
        self.tick_lower < self.tick_upper
    }
}

impl BurnEvent {
    /// A position lies between two distinct boundaries, the lower one first.
    pub open spec fn valid(&self) -> bool {
        self.tick_lower < self.tick_upper
    }
}

} // verus!
