//! Applies the events of a pool to its replica.
//!
//! A mint or a burn is a delta on the two boundary ticks of a position and
//! on the active liquidity. A swap is a snapshot: it overwrites price,
//! liquidity and current tick, and leaves the tick table alone.

use crate::chain_types::{block_reference, to_block_reference};
use crate::events::{BurnEvent, MintEvent, PoolEvent, SwapEvent};
use crate::liquidity_math::{
    clamp_i128,
    clamp_u128,
    saturating_add_amount,
    saturating_sub_amount,
};
use crate::pool::{Pool, PoolState};
use crate::tick::{LiquidityAt, Tick};
use crate::tick_data_provider::EphemeralTickDataProvider;
use alloy::eips::BlockId;
use vstd::prelude::*;

verus! {

/// What is booked at `index`, where a boundary without a record counts as
/// one with nothing booked.
pub open spec fn liquidity_at(ticks: Map<int, LiquidityAt>, index: int) -> LiquidityAt {
    if ticks.contains_key(index) {
        ticks[index]
    } else {
        LiquidityAt { gross: 0, net: 0 }
    }
}

/// The record made for a boundary that had none: the amount as gross, and
/// as net the amount at a lower boundary and its negation at an upper one,
/// clamped to the signed type.
pub open spec fn fresh_boundary(amount: u128, upper: bool) -> LiquidityAt {
    LiquidityAt {
        gross: amount as int,
        net: if upper {
            clamp_i128(-amount)
        } else {
            clamp_i128(amount as int)
        },
    }
}

/// A boundary's amounts after a mint of `amount`: gross grows, net grows at
/// a lower boundary and shrinks at an upper one, each clamped to its type.
pub open spec fn minted(prior: LiquidityAt, amount: u128, upper: bool) -> LiquidityAt {
    LiquidityAt {
        gross: clamp_u128(prior.gross + amount),
        net: if upper {
            clamp_i128(prior.net - amount)
        } else {
            clamp_i128(prior.net + amount)
        },
    }
}

/// A boundary's amounts after a burn of `amount`: gross shrinks, net shrinks
/// at a lower boundary and grows at an upper one, each clamped to its type.
pub open spec fn burned(prior: LiquidityAt, amount: u128, upper: bool) -> LiquidityAt {
    LiquidityAt {
        gross: clamp_u128(prior.gross - amount),
        net: if upper {
            clamp_i128(prior.net + amount)
        } else {
            clamp_i128(prior.net - amount)
        },
    }
}

/// The table after a mint has been booked at one boundary.
pub open spec fn mint_boundary(
    ticks: Map<int, LiquidityAt>,
    index: int,
    amount: u128,
    upper: bool,
) -> Map<int, LiquidityAt> {
    if ticks.contains_key(index) {
        ticks.insert(index, minted(ticks[index], amount, upper))
    } else {
        ticks.insert(index, fresh_boundary(amount, upper))
    }
}

/// The table after a burn has been booked at one boundary. A boundary
/// without a record gets the same fresh record as in a mint.
pub open spec fn burn_boundary(
    ticks: Map<int, LiquidityAt>,
    index: int,
    amount: u128,
    upper: bool,
) -> Map<int, LiquidityAt> {
    if ticks.contains_key(index) {
        ticks.insert(index, burned(ticks[index], amount, upper))
    } else {
        ticks.insert(index, fresh_boundary(amount, upper))
    }
}

/// The table after a mint: the lower boundary is booked first, then the
/// upper one.
pub open spec fn ticks_after_mint(ticks: Map<int, LiquidityAt>, event: MintEvent) -> Map<
    int,
    LiquidityAt,
> {
    mint_boundary(
        mint_boundary(ticks, event.tick_lower as int, event.amount, false),
        event.tick_upper as int,
        event.amount,
        true,
    )
}

/// The table after a burn: the lower boundary is booked first, then the
/// upper one.
pub open spec fn ticks_after_burn(ticks: Map<int, LiquidityAt>, event: BurnEvent) -> Map<
    int,
    LiquidityAt,
> {
    burn_boundary(
        burn_boundary(ticks, event.tick_lower as int, event.amount, false),
        event.tick_upper as int,
        event.amount,
        true,
    )
}

/// The pool after a mint: both boundaries booked, the active liquidity
/// raised by the amount whatever the current price, the block recorded.
pub open spec fn after_mint(state: PoolState, event: MintEvent) -> PoolState {
    PoolState {
        liquidity: clamp_u128(state.liquidity + event.amount),
        ticks: ticks_after_mint(state.ticks, event),
        block_reference: block_reference(event.block_number),
        ..state
    }
}

/// The pool after a burn: both boundaries booked, the active liquidity
/// lowered by the amount whatever the current price, the block recorded.
pub open spec fn after_burn(state: PoolState, event: BurnEvent) -> PoolState {
    PoolState {
        liquidity: clamp_u128(state.liquidity - event.amount),
        ticks: ticks_after_burn(state.ticks, event),
        block_reference: block_reference(event.block_number),
        ..state
    }
}

/// The pool after a swap: price, liquidity and current tick are the
/// event's, whatever they were before; the rest stays.
pub open spec fn after_swap(state: PoolState, event: SwapEvent) -> PoolState {
    PoolState {
        sqrt_price: event.sqrt_price_x96,
        liquidity: event.liquidity as int,
        tick_current: event.tick as int,
        ..state
    }
}

/// The pool after any one event.
pub open spec fn after_event(state: PoolState, event: PoolEvent) -> PoolState {
    match event {
        PoolEvent::Mint(mint) => after_mint(state, mint),
        PoolEvent::Burn(burn) => after_burn(state, burn),
        PoolEvent::Swap(swap) => after_swap(state, swap),
    }
}

/// A tick table that mint and burn events can be replayed onto.
pub trait EventUpdater {
    /// Whether the table is in a state that events can be applied to.
    spec fn consistent(&self) -> bool;

    /// What the table holds at each boundary.
    spec fn tick_table(&self) -> Map<int, LiquidityAt>;

    /// The block of the last event that was applied.
    spec fn last_block(&self) -> Option<BlockId>;

    /// Books a mint at its two boundaries and records its block.
    fn update_on_mint(&mut self, event: &MintEvent)
        requires
            old(self).consistent(),
        ensures
            final(self).consistent(),
            final(self).tick_table() == ticks_after_mint(old(self).tick_table(), *event),
            final(self).last_block() == block_reference(event.block_number),
    ;

    /// Books a burn at its two boundaries and records its block.
    fn update_on_burn(&mut self, event: &BurnEvent)
        requires
            old(self).consistent(),
        ensures
            final(self).consistent(),
            final(self).tick_table() == ticks_after_burn(old(self).tick_table(), *event),
            final(self).last_block() == block_reference(event.block_number),
    ;
}

impl EventUpdater for EphemeralTickDataProvider {
    open spec fn consistent(&self) -> bool {
        self.wf()
    }

    open spec fn tick_table(&self) -> Map<int, LiquidityAt> {
        self@
    }

    open spec fn last_block(&self) -> Option<BlockId> {
        self.block_id
    }

    fn update_on_mint(&mut self, event: &MintEvent) {
        self.block_id = to_block_reference(event.block_number);
        let tick_index = event.tick_lower;
        let liquidity = event.amount;
        if let Some(tick_lower) = self.find(tick_index) {
            self.update_tick(
                tick_lower.index,
                tick_lower.liquidity_gross.saturating_add(liquidity),
                saturating_add_amount(tick_lower.liquidity_net, liquidity),
            );
        } else {
            let new_tick = Tick::new(tick_index, liquidity, saturating_add_amount(0, liquidity));
            self.insert_tick(new_tick);
        }
        let tick_index = event.tick_upper;
        if let Some(tick_upper) = self.find(tick_index) {
            self.update_tick(
                tick_upper.index,
                tick_upper.liquidity_gross.saturating_add(liquidity),
                saturating_sub_amount(tick_upper.liquidity_net, liquidity),
            );
        } else {
            let new_tick = Tick::new(tick_index, liquidity, saturating_sub_amount(0, liquidity));
            self.insert_tick(new_tick);
        }
    }

    fn update_on_burn(&mut self, event: &BurnEvent) {
        self.block_id = to_block_reference(event.block_number);
        let tick_index = event.tick_lower;
        let liquidity = event.amount;
        if let Some(tick_lower) = self.find(tick_index) {
            self.update_tick(
                tick_lower.index,
                tick_lower.liquidity_gross.saturating_sub(liquidity),
                saturating_sub_amount(tick_lower.liquidity_net, liquidity),
            );
        } else {
            let new_tick = Tick::new(tick_index, liquidity, saturating_add_amount(0, liquidity));
            self.insert_tick(new_tick);
        }
        let tick_index = event.tick_upper;
        if let Some(tick_upper) = self.find(tick_index) {
            self.update_tick(
                tick_upper.index,
                tick_upper.liquidity_gross.saturating_sub(liquidity),
                saturating_add_amount(tick_upper.liquidity_net, liquidity),
            );
        } else {
            let new_tick = Tick::new(tick_index, liquidity, saturating_sub_amount(0, liquidity));
            self.insert_tick(new_tick);
        }
    }
}

impl Pool {
    /// Applies a mint: both boundaries are booked, the active liquidity
    /// grows by the amount, and the event's block is recorded.
    pub fn update_on_mint(&mut self, event: &MintEvent)
        requires
            old(self).wf(),
        ensures
            final(self).wf(),
            final(self)@ == after_mint(old(self)@, *event),
    {
        self.liquidity = self.liquidity.saturating_add(event.amount);
        self.tick_data_provider.update_on_mint(event);
    }

    /// Applies a burn: both boundaries are booked, the active liquidity
    /// shrinks by the amount, and the event's block is recorded.
    pub fn update_on_burn(&mut self, event: &BurnEvent)
        requires
            old(self).wf(),
        ensures
            final(self).wf(),
            final(self)@ == after_burn(old(self)@, *event),
    {
        self.liquidity = self.liquidity.saturating_sub(event.amount);
        self.tick_data_provider.update_on_burn(event);
    }

    /// Applies a swap: price, liquidity and current tick become the
    /// event's; the tick table is not touched.
    pub fn update_on_swap(&mut self, event: &SwapEvent)
        ensures
            final(self)@ == after_swap(old(self)@, *event),
            final(self).sqrt_ratio_x96 == event.sqrt_price_x96,
            final(self).liquidity == event.liquidity,
            final(self).tick_current == event.tick,
            final(self).tick_data_provider == old(self).tick_data_provider,
    {
        self.sqrt_ratio_x96 = event.sqrt_price_x96;
        self.liquidity = event.liquidity;
        self.tick_current = event.tick;
    }

    /// Applies one event of the pool's log, whatever its kind. Only a mint
    /// or a burn needs the tick table to be sorted; a swap never reads it.
    pub fn update_on_event(&mut self, event: &PoolEvent)
        requires
            event is Swap || old(self).wf(),
        ensures
            final(self).wf() == old(self).wf(),
            final(self)@ == after_event(old(self)@, *event),
            event is Swap ==> final(self).tick_data_provider == old(self).tick_data_provider,
    {
        match event {
            PoolEvent::Mint(mint) => self.update_on_mint(mint),
            PoolEvent::Burn(burn) => self.update_on_burn(burn),
            PoolEvent::Swap(swap) => self.update_on_swap(swap),
        }
    }
}

} // verus!
