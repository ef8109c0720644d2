//! The tick table of a pool replica: its tick records, sorted by index.

use crate::tick::{LiquidityAt, Tick};
use alloy::eips::BlockId;
use vstd::prelude::*;

verus! {

/// Whether `ticks` is strictly increasing by index.
pub open spec fn sorted_by_index(ticks: Seq<Tick>) -> bool {
    forall|i: int, j: int| 0 <= i < j < ticks.len() ==> ticks[i].index < ticks[j].index
}

/// Whether some record of `ticks` has the index `index`.
pub open spec fn has_index(ticks: Seq<Tick>, index: int) -> bool {
    exists|k: int| 0 <= k < ticks.len() && #[trigger] ticks[k].index == index
}

/// The table that `ticks` stands for: each index with what is booked there.
pub open spec fn table_of(ticks: Seq<Tick>) -> Map<int, LiquidityAt> {
    Map::new(
        |index: int| has_index(ticks, index),
        |index: int|
            {
                let k = choose|k: int| 0 <= k < ticks.len() && #[trigger] ticks[k].index == index;
                ticks[k]@
            },
    )
}

/// In a sorted sequence, the record at position `k` is the table's entry for
/// its index.
pub proof fn lemma_table_entry(ticks: Seq<Tick>, k: int)
    requires
        sorted_by_index(ticks),
        0 <= k < ticks.len(),
    ensures
        table_of(ticks).contains_key(ticks[k].index as int),
        table_of(ticks)[ticks[k].index as int] == ticks[k]@,
{
    let index = ticks[k].index as int;
    assert(has_index(ticks, index));
    let chosen = choose|c: int| 0 <= c < ticks.len() && #[trigger] ticks[c].index == index;
    assert(chosen == k) by {
        if chosen < k {
            assert(ticks[chosen].index < ticks[k].index);
        } else if k < chosen {
            assert(ticks[k].index < ticks[chosen].index);
        }
    }
}

/// Placing a record with a new index at its sorted position adds one entry
/// to the table and keeps the order.
pub proof fn lemma_table_insert(ticks: Seq<Tick>, position: int, tick: Tick)
    requires
        sorted_by_index(ticks),
        0 <= position <= ticks.len(),
        forall|k: int| 0 <= k < position ==> ticks[k].index < tick.index,
        forall|k: int| position <= k < ticks.len() ==> tick.index < ticks[k].index,
    ensures
        sorted_by_index(ticks.insert(position, tick)),
        table_of(ticks.insert(position, tick)) == table_of(ticks).insert(tick.index as int, tick@),
{
    let grown = ticks.insert(position, tick);
    assert(sorted_by_index(grown));
    let expected = table_of(ticks).insert(tick.index as int, tick@);
    assert forall|index: int| #[trigger] has_index(grown, index) implies has_index(ticks, index)
        || index == tick.index by {
        let k = choose|k: int| 0 <= k < grown.len() && #[trigger] grown[k].index == index;
        if k < position {
            assert(ticks[k].index == index);
        } else if k > position {
            assert(ticks[k - 1].index == index);
        }
    }
    assert forall|index: int| #[trigger]
        expected.contains_key(index) implies has_index(grown, index) && table_of(grown)[index]
        == expected[index] by {
        if index == tick.index {
            assert(grown[position] == tick);
            lemma_table_entry(grown, position);
        } else {
            let k = choose|k: int| 0 <= k < ticks.len() && #[trigger] ticks[k].index == index;
            lemma_table_entry(ticks, k);
            if k < position {
                assert(grown[k] == ticks[k]);
                lemma_table_entry(grown, k);
            } else {
                assert(grown[k + 1] == ticks[k]);
                lemma_table_entry(grown, k + 1);
            }
        }
    }
    assert(table_of(grown) =~= expected);
}

/// Replacing a record by one with the same index rewrites that entry of the
/// table and keeps the order.
pub proof fn lemma_table_update(ticks: Seq<Tick>, position: int, tick: Tick)
    requires
        sorted_by_index(ticks),
        0 <= position < ticks.len(),
        ticks[position].index == tick.index,
    ensures
        sorted_by_index(ticks.update(position, tick)),
        table_of(ticks.update(position, tick)) == table_of(ticks).insert(tick.index as int, tick@),
{
    let changed = ticks.update(position, tick);
    assert forall|i: int, j: int| 0 <= i < j < changed.len() implies changed[i].index
        < changed[j].index by {
        assert(ticks[i].index < ticks[j].index);
    }
    let expected = table_of(ticks).insert(tick.index as int, tick@);
    assert forall|index: int| #[trigger] has_index(changed, index) implies has_index(
        ticks,
        index,
    ) by {
        let k = choose|k: int| 0 <= k < changed.len() && #[trigger] changed[k].index == index;
        assert(ticks[k].index == index);
    }
    assert forall|index: int| #[trigger]
        expected.contains_key(index) implies has_index(changed, index) && table_of(changed)[index]
        == expected[index] by {
        if index == tick.index {
            lemma_table_entry(changed, position);
        } else {
            let k = choose|k: int| 0 <= k < ticks.len() && #[trigger] ticks[k].index == index;
            lemma_table_entry(ticks, k);
            assert(changed[k] == ticks[k]);
            lemma_table_entry(changed, k);
        }
    }
    assert(table_of(changed) =~= expected);
}

/// A tick table that lives only in memory and is advanced by replaying
/// events. `block_id` names the block of the last event that changed it.
#[derive(Debug)]
pub struct EphemeralTickDataProvider {
    pub block_id: Option<BlockId>,
    pub ticks: Vec<Tick>,
}

impl View for EphemeralTickDataProvider {
    type V = Map<int, LiquidityAt>;

    open spec fn view(&self) -> Map<int, LiquidityAt> {
        table_of(self.ticks@)
    }
}

impl Clone for EphemeralTickDataProvider {
    /// A copy with the same records and the same block reference.
    fn clone(&self) -> (copy: Self)
        ensures
            copy.block_id == self.block_id,
            copy.ticks@ == self.ticks@,
    {
        let ticks = self.ticks.clone();
        assert(ticks@ =~= self.ticks@);
        EphemeralTickDataProvider { block_id: self.block_id, ticks }
    }
}

impl EphemeralTickDataProvider {
    /// The records are sorted by index, so no index occurs twice.
    pub open spec fn wf(&self) -> bool {
        sorted_by_index(self.ticks@)
    }

    /// An empty table that no event has touched yet.
    pub fn new() -> (provider: Self)
        ensures
            provider.wf(),
            provider@ == Map::<int, LiquidityAt>::empty(),
            provider.block_id.is_none(),
            provider.ticks@.len() == 0,
    {
        let provider = EphemeralTickDataProvider { block_id: None, ticks: Vec::new() };
        assert(provider@ =~= Map::<int, LiquidityAt>::empty());
        provider
    }

    /// Checks that the records are sorted by index, as every other operation
    /// expects of a table that was filled in from outside.
    pub fn is_well_formed(&self) -> (ok: bool)
        ensures
            ok == self.wf(),
    {
        let mut k: usize = 1;
        while k < self.ticks.len()
            invariant
                1 <= k,
                forall|i: int, j: int|
                    0 <= i < j < k && j < self.ticks@.len() ==> self.ticks@[i].index
                        < self.ticks@[j].index,
            decreases self.ticks@.len() - k,
        {
            if self.ticks[k - 1].index >= self.ticks[k].index {
                return false;
            }
            proof {
                let ticks = self.ticks@;
                assert forall|i: int| 0 <= i < k implies ticks[i].index < ticks[k as int].index by {
                    if i < k - 1 {
                        assert(ticks[i].index < ticks[k - 1].index);
                    }
                }
            }
            k += 1;
        }
        true
    }

    /// Where the record for `index` stands, if there is one.
    fn position(&self, index: i32) -> (found: Option<usize>)
        requires
            self.wf(),
        ensures
            match found {
                Some(k) => k < self.ticks@.len() && self.ticks@[k as int].index == index,
                None => !self@.contains_key(index as int),
            },
    {
        let mut k: usize = 0;
        while k < self.ticks.len()
            invariant
                k <= self.ticks@.len(),
                forall|j: int| 0 <= j < k ==> self.ticks@[j].index != index,
            decreases self.ticks@.len() - k,
        {
            if self.ticks[k].index == index {
                return Some(k);
            }
            k += 1;
        }
        None
    }

    /// Looks up the record for `index`.
    pub fn find(&self, index: i32) -> (found: Option<&Tick>)
        requires
            self.wf(),
        ensures
            match found {
                Some(tick) => self@.contains_key(index as int) && tick.index == index && tick@
                    == self@[index as int],
                None => !self@.contains_key(index as int),
            },
    {
        match self.position(index) {
            Some(k) => {
                proof {
                    lemma_table_entry(self.ticks@, k as int);
                }
                Some(&self.ticks[k])
            },
            None => None,
        }
    }

    /// Adds the record `tick`, whose index the table does not hold yet, at
    /// its place in the order.
    pub fn insert_tick(&mut self, tick: Tick)
        requires
            old(self).wf(),
            !old(self)@.contains_key(tick.index as int),
        ensures
            final(self).wf(),
            final(self)@ == old(self)@.insert(tick.index as int, tick@),
            final(self).block_id == old(self).block_id,
    {
        let mut position: usize = 0;
        while position < self.ticks.len() && self.ticks[position].index < tick.index
            invariant
                *self == *old(self),
                position <= self.ticks@.len(),
                forall|j: int| 0 <= j < position ==> self.ticks@[j].index < tick.index,
            decreases self.ticks@.len() - position,
        {
            position += 1;
        }
        proof {
            let ticks = self.ticks@;
            assert forall|j: int| position <= j < ticks.len() implies tick.index
                < ticks[j].index by {
                assert(has_index(ticks, ticks[j].index as int));
                if position < j {
                    assert(ticks[position as int].index < ticks[j].index);
                }
            }
            lemma_table_insert(ticks, position as int, tick);
        }
        self.ticks.insert(position, tick);
    }

    /// Sets the amounts of the record for `index`, which the table holds, to
    /// the given absolute values.
    pub fn update_tick(&mut self, index: i32, liquidity_gross: u128, liquidity_net: i128)
        requires
            old(self).wf(),
            old(self)@.contains_key(index as int),
        ensures
            final(self).wf(),
            final(self)@ == old(self)@.insert(
                index as int,
                LiquidityAt { gross: liquidity_gross as int, net: liquidity_net as int },
            ),
            final(self).block_id == old(self).block_id,
    {
        match self.position(index) {
            Some(k) => {
                let tick = Tick::new(index, liquidity_gross, liquidity_net);
                proof {
                    lemma_table_update(self.ticks@, k as int, tick);
                }
                self.ticks.set(k, tick);
            },
            None => {},
        }
    }
}

} // verus!
