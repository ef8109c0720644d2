//! A tick record: the liquidity booked at one price boundary.

use vstd::prelude::*;

verus! {

/// What is booked at a boundary, as mathematical integers.
pub ghost struct LiquidityAt {
    /// Total liquidity that references the boundary, whatever its direction.
    pub gross: int,
    /// Liquidity added to the active amount when the price crosses the
    /// boundary upwards, and taken from it when it crosses downwards.
    pub net: int,
}

/// The liquidity booked at the price boundary `index`.
#[derive(Clone, Copy, Debug, PartialEq, Eq, Structural)]
pub struct Tick {
    pub index: i32,
    pub liquidity_gross: u128,
    pub liquidity_net: i128,
}

impl View for Tick {
    type V = LiquidityAt;

    open spec fn view(&self) -> LiquidityAt {
        LiquidityAt { gross: self.liquidity_gross as int, net: self.liquidity_net as int }
    }
}

impl Tick {
    /// A record for `index` that holds the given amounts.
    pub fn new(index: i32, liquidity_gross: u128, liquidity_net: i128) -> (tick: Tick)
        ensures
            tick.index == index,
            tick.liquidity_gross == liquidity_gross,
            tick.liquidity_net == liquidity_net,
    {
        Tick { index, liquidity_gross, liquidity_net }
    }
}

} // verus!
