//! The replica of a pool: its spot-price state and its tick table.

use crate::tick::LiquidityAt;
use crate::tick_data_provider::EphemeralTickDataProvider;
use alloy::eips::BlockId;
use alloy_primitives::aliases::U160;
use vstd::prelude::*;

verus! {

/// The state of a pool replica, as mathematical values.
pub ghost struct PoolState {
    /// Square root of the price, as the last swap gave it.
    pub sqrt_price: U160,
    /// Liquidity that is active at the current price.
    pub liquidity: int,
    /// The tick that holds the current price.
    pub tick_current: int,
    /// What is booked at each boundary.
    pub ticks: Map<int, LiquidityAt>,
    /// The block of the last mint or burn that was applied.
    pub block_reference: Option<BlockId>,
}

impl PoolState {
    /// Every amount lies in the range of the integer type that holds it.
    pub open spec fn valid(&self) -> bool {
        &&& 0 <= self.liquidity <= u128::MAX
        &&& forall|index: int| #[trigger]
            self.ticks.contains_key(index) ==> {
                &&& 0 <= self.ticks[index].gross <= u128::MAX
                &&& i128::MIN <= self.ticks[index].net <= i128::MAX
            }
    }
}

/// A pool replica. It owns its tick table, and is advanced only by replaying
/// the pool's events in the order of the log.
#[derive(Debug)]
pub struct Pool {
    pub sqrt_ratio_x96: U160,
    pub liquidity: u128,
    pub tick_current: i32,
    pub tick_data_provider: EphemeralTickDataProvider,
}

impl View for Pool {
    type V = PoolState;

    open spec fn view(&self) -> PoolState {
        PoolState {
            sqrt_price: self.sqrt_ratio_x96,
            liquidity: self.liquidity as int,
            tick_current: self.tick_current as int,
            ticks: self.tick_data_provider@,
            block_reference: self.tick_data_provider.block_id,
        }
    }
}

impl Clone for Pool {
    /// A copy in the same state, with a tick table of its own.
    fn clone(&self) -> (copy: Self)
        ensures
            copy.sqrt_ratio_x96 == self.sqrt_ratio_x96,
            copy.liquidity == self.liquidity,
            copy.tick_current == self.tick_current,
            copy.tick_data_provider.block_id == self.tick_data_provider.block_id,
            copy.tick_data_provider.ticks@ == self.tick_data_provider.ticks@,
    {
        Pool {
            sqrt_ratio_x96: self.sqrt_ratio_x96,
            liquidity: self.liquidity,
            tick_current: self.tick_current,
            tick_data_provider: self.tick_data_provider.clone(),
        }
    }
}

impl Pool {
    /// The tick table is sorted by index.
    pub open spec fn wf(&self) -> bool {
        self.tick_data_provider.wf()
    }

    /// The state of a replica is always a valid one.
    pub proof fn lemma_state_valid(&self)
        ensures
            self@.valid(),
    {
    }

    /// A replica with the given spot-price state, on top of an existing tick
    /// table.
    pub fn new(
        sqrt_ratio_x96: U160,
        liquidity: u128,
        tick_current: i32,
        tick_data_provider: EphemeralTickDataProvider,
    ) -> (pool: Pool)
        ensures
            pool.sqrt_ratio_x96 == sqrt_ratio_x96,
            pool.liquidity == liquidity,
            pool.tick_current == tick_current,
            pool.tick_data_provider == tick_data_provider,
    {
        Pool { sqrt_ratio_x96, liquidity, tick_current, tick_data_provider }
    }
}

} // verus!
