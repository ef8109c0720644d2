//! What holds of event application in general, proved over the state
//! transitions that the update functions are specified by.

use crate::event_updater::{
    after_burn,
    after_mint,
    after_swap,
    liquidity_at,
    ticks_after_burn,
    ticks_after_mint,
};
use crate::events::{BurnEvent, MintEvent, SwapEvent};
use crate::liquidity_math::{clamp_i128, clamp_u128};
use crate::pool::PoolState;
use crate::tick::LiquidityAt;
use vstd::prelude::*;

verus! {

/// Whether a mint is booked without clamping anywhere: the sums at both
/// boundaries and on the active liquidity stay within their types.
pub open spec fn mint_is_exact(state: PoolState, event: MintEvent) -> bool {
    let lower = liquidity_at(state.ticks, event.tick_lower as int);
    let upper = liquidity_at(state.ticks, event.tick_upper as int);
    &&& lower.gross + event.amount <= u128::MAX
    &&& upper.gross + event.amount <= u128::MAX
    &&& lower.net + event.amount <= i128::MAX
    &&& upper.net - event.amount >= i128::MIN
    &&& state.liquidity + event.amount <= u128::MAX
}

/// Whether a burn undoes a mint: the same boundaries and the same amount.
pub open spec fn reverses(burn: BurnEvent, mint: MintEvent) -> bool {
    &&& burn.tick_lower == mint.tick_lower
    &&& burn.tick_upper == mint.tick_upper
    &&& burn.amount == mint.amount
}

/// A mint keeps every amount within its type.
pub proof fn lemma_mint_keeps_valid(state: PoolState, event: MintEvent)
    requires
        state.valid(),
    ensures
        after_mint(state, event).valid(),
{
}

/// A burn keeps every amount within its type.
pub proof fn lemma_burn_keeps_valid(state: PoolState, event: BurnEvent)
    requires
        state.valid(),
    ensures
        after_burn(state, event).valid(),
{
}

/// A mint that nothing clamps, followed by the burn that reverses it, gives
/// back what was booked at every boundary and the active liquidity. A
/// boundary that the mint created stays, with nothing booked; where both
/// boundaries had a record before, the table is the same as before.
pub proof fn lemma_burn_undoes_mint(state: PoolState, mint: MintEvent, burn: BurnEvent)
    requires
        state.valid(),
        mint.valid(),
        reverses(burn, mint),
        mint_is_exact(state, mint),
    ensures
        forall|index: int|
            liquidity_at(after_burn(after_mint(state, mint), burn).ticks, index) == liquidity_at(
                state.ticks,
                index,
            ),
        after_burn(after_mint(state, mint), burn).liquidity == state.liquidity,
        after_burn(after_mint(state, mint), burn).sqrt_price == state.sqrt_price,
        after_burn(after_mint(state, mint), burn).tick_current == state.tick_current,
        state.ticks.contains_key(mint.tick_lower as int) && state.ticks.contains_key(
            mint.tick_upper as int,
        ) ==> after_burn(after_mint(state, mint), burn).ticks == state.ticks,
{
    let end = after_burn(after_mint(state, mint), burn);
    assert forall|index: int| liquidity_at(end.ticks, index) == liquidity_at(
        state.ticks,
        index,
    ) by {}
    if state.ticks.contains_key(mint.tick_lower as int) && state.ticks.contains_key(
        mint.tick_upper as int,
    ) {
        assert(end.ticks =~= state.ticks);
    }
}

/// A mint never lowers the net liquidity at its lower boundary and never
/// raises it at its upper boundary, whatever the amount.
pub proof fn lemma_mint_net_direction(state: PoolState, event: MintEvent)
    requires
        state.valid(),
        event.valid(),
    ensures
        liquidity_at(ticks_after_mint(state.ticks, event), event.tick_lower as int).net
            >= liquidity_at(state.ticks, event.tick_lower as int).net,
        liquidity_at(ticks_after_mint(state.ticks, event), event.tick_upper as int).net
            <= liquidity_at(state.ticks, event.tick_upper as int).net,
{
}

/// A burn never raises the net liquidity at a lower boundary that has a
/// record, and never lowers it at an upper boundary that has one, whatever
/// the amount.
pub proof fn lemma_burn_net_direction(state: PoolState, event: BurnEvent)
    requires
        state.valid(),
        event.valid(),
    ensures
        state.ticks.contains_key(event.tick_lower as int) ==> liquidity_at(
            ticks_after_burn(state.ticks, event),
            event.tick_lower as int,
        ).net <= liquidity_at(state.ticks, event.tick_lower as int).net,
        state.ticks.contains_key(event.tick_upper as int) ==> liquidity_at(
            ticks_after_burn(state.ticks, event),
            event.tick_upper as int,
        ).net >= liquidity_at(state.ticks, event.tick_upper as int).net,
{
}

/// A mint leaves a record at both of its boundaries. At a boundary that had
/// none, the record holds the amount as gross, and as net the amount at the
/// lower boundary and its negation at the upper one; an amount above the
/// signed maximum clamps there.
pub proof fn lemma_mint_creates_missing(ticks: Map<int, LiquidityAt>, event: MintEvent)
    requires
        event.valid(),
    ensures
        ticks_after_mint(ticks, event).contains_key(event.tick_lower as int),
        ticks_after_mint(ticks, event).contains_key(event.tick_upper as int),
        !ticks.contains_key(event.tick_lower as int) ==> ticks_after_mint(
            ticks,
            event,
        )[event.tick_lower as int] == (LiquidityAt {
            gross: event.amount as int,
            net: clamp_i128(event.amount as int),
        }),
        !ticks.contains_key(event.tick_upper as int) ==> ticks_after_mint(
            ticks,
            event,
        )[event.tick_upper as int] == (LiquidityAt {
            gross: event.amount as int,
            net: clamp_i128(-event.amount),
        }),
        event.amount <= i128::MAX ==> clamp_i128(event.amount as int) == event.amount
            && clamp_i128(-event.amount) == -event.amount,
{
}

/// A swap is a snapshot: whatever two pools held before, after the same
/// swap they agree on price, liquidity and current tick, which are the
/// event's; and each keeps its own tick table and block reference.
pub proof fn lemma_swap_overwrites(first: PoolState, second: PoolState, event: SwapEvent)
    ensures
        after_swap(first, event).sqrt_price == event.sqrt_price_x96,
        after_swap(first, event).liquidity == event.liquidity,
        after_swap(first, event).tick_current == event.tick,
        after_swap(first, event).sqrt_price == after_swap(second, event).sqrt_price,
        after_swap(first, event).liquidity == after_swap(second, event).liquidity,
        after_swap(first, event).tick_current == after_swap(second, event).tick_current,
        after_swap(first, event).ticks == first.ticks,
        after_swap(first, event).block_reference == first.block_reference,
{
}

/// The pool after the same mint has been applied `times` times in a row.
pub open spec fn after_mints(state: PoolState, event: MintEvent, times: nat) -> PoolState
    decreases times,
{
    if times == 0 {
        state
    } else {
        after_mint(after_mints(state, event, (times - 1) as nat), event)
    }
}

/// A mint never lowers the gross liquidity at its boundaries nor the active
/// liquidity: each becomes the exact sum, or the maximum of `u128` where
/// the sum would pass it.
pub proof fn lemma_mint_gross_clamps(state: PoolState, event: MintEvent)
    requires
        state.valid(),
        event.valid(),
    ensures
        liquidity_at(after_mint(state, event).ticks, event.tick_lower as int).gross == clamp_u128(
            liquidity_at(state.ticks, event.tick_lower as int).gross + event.amount,
        ),
        liquidity_at(after_mint(state, event).ticks, event.tick_upper as int).gross == clamp_u128(
            liquidity_at(state.ticks, event.tick_upper as int).gross + event.amount,
        ),
        after_mint(state, event).liquidity == clamp_u128(state.liquidity + event.amount),
        liquidity_at(after_mint(state, event).ticks, event.tick_lower as int).gross >= liquidity_at(
            state.ticks,
            event.tick_lower as int,
        ).gross,
        liquidity_at(after_mint(state, event).ticks, event.tick_upper as int).gross >= liquidity_at(
            state.ticks,
            event.tick_upper as int,
        ).gross,
        after_mint(state, event).liquidity >= state.liquidity,
{
}

/// However often a mint is repeated, gross and active liquidity never wrap:
/// each is the exact sum of all the amounts, or the maximum of `u128` once
/// the sum has passed it.
pub proof fn lemma_repeated_mint_clamps(state: PoolState, event: MintEvent, times: nat)
    requires
        state.valid(),
        event.valid(),
    ensures
        after_mints(state, event, times).valid(),
        liquidity_at(after_mints(state, event, times).ticks, event.tick_lower as int).gross
            == clamp_u128(
            liquidity_at(state.ticks, event.tick_lower as int).gross + times * event.amount,
        ),
        liquidity_at(after_mints(state, event, times).ticks, event.tick_upper as int).gross
            == clamp_u128(
            liquidity_at(state.ticks, event.tick_upper as int).gross + times * event.amount,
        ),
        after_mints(state, event, times).liquidity == clamp_u128(
            state.liquidity + times * event.amount,
        ),
    decreases times,
{
    if times > 0 {
        let before = after_mints(state, event, (times - 1) as nat);
        lemma_repeated_mint_clamps(state, event, (times - 1) as nat);
        lemma_mint_keeps_valid(before, event);
        lemma_mint_gross_clamps(before, event);
        assert(times * event.amount == (times - 1) * event.amount + event.amount)
            by (nonlinear_arith);
        assert((times - 1) * event.amount >= 0) by (nonlinear_arith)
            requires
                times >= 1,
                event.amount >= 0,
        ;
    }
}

} // verus!
