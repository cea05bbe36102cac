use vstd::prelude::*;

use crate::state::{cluster_history_entry::ClusterHistoryEntry, MAX_ITEMS};

verus! {

broadcast use vstd::array::group_array_axioms;

/// Ring buffer of cluster history entries; `idx` is the slot of the latest entry.
pub struct CircBufCluster {
    pub idx: u64,
    pub is_empty: u8,
    pub padding: [u8; 7],
    pub arr: [ClusterHistoryEntry; MAX_ITEMS],
}

/// The slot that a push into a buffer whose latest slot is `idx` writes.
pub open spec fn next_slot(idx: int) -> int {
    (idx + 1) % (MAX_ITEMS as int)
}

/// Latest slot and entries of a ring buffer, starting from latest slot `idx` and entries
/// `arr`, after `items` were pushed in order.
pub open spec fn ring_after_pushes(
    idx: int,
    arr: Seq<ClusterHistoryEntry>,
    items: Seq<ClusterHistoryEntry>,
) -> (int, Seq<ClusterHistoryEntry>)
    decreases items.len(),
{
    if items.len() == 0 {
        (idx, arr)
    } else {
        let prev = ring_after_pushes(idx, arr, items.drop_last());
        let slot = next_slot(prev.0);
        (slot, prev.1.update(slot, items.last()))
    }
}

/// Pushing one more entry after a run of pushes is one more step of the same run.
pub proof fn lemma_ring_push_extends(
    idx: int,
    arr: Seq<ClusterHistoryEntry>,
    items: Seq<ClusterHistoryEntry>,
    item: ClusterHistoryEntry,
)
    ensures
        ring_after_pushes(idx, arr, items.push(item)) == ({
            let prev = ring_after_pushes(idx, arr, items);
            (next_slot(prev.0), prev.1.update(next_slot(prev.0), item))
        }),
{
    assert(items.push(item).drop_last() =~= items);
}

/// Pushing up to `MAX_ITEMS` entries into a ring buffer keeps every one of them: the
/// `j`-th pushed entry sits `j + 1` slots after the starting slot, the latest slot moves
/// by the number of entries, and the slots not reached keep their old entries.
pub proof fn lemma_ring_keeps_recent_pushes(
    idx: int,
    arr: Seq<ClusterHistoryEntry>,
    items: Seq<ClusterHistoryEntry>,
)
    requires
        0 <= idx < MAX_ITEMS,
        arr.len() == MAX_ITEMS,
        items.len() <= MAX_ITEMS,
    ensures
        ring_after_pushes(idx, arr, items).0 == (idx + items.len()) % (MAX_ITEMS as int),
        ring_after_pushes(idx, arr, items).1.len() == MAX_ITEMS,
        forall|j: int|
            0 <= j < items.len() ==> #[trigger] ring_after_pushes(idx, arr, items).1[(idx + 1
                + j) % (MAX_ITEMS as int)] == items[j],
        forall|k: int|
            items.len() <= k < MAX_ITEMS ==> #[trigger] ring_after_pushes(idx, arr, items).1[(
            idx + 1 + k) % (MAX_ITEMS as int)] == arr[(idx + 1 + k) % (MAX_ITEMS as int)],
    decreases items.len(),
{
    if items.len() > 0 {
        let rest = items.drop_last();
        lemma_ring_keeps_recent_pushes(idx, arr, rest);
        let prev = ring_after_pushes(idx, arr, rest);
        let n = items.len() - 1;
        let slot = next_slot(prev.0);
        assert(slot == (idx + 1 + n) % (MAX_ITEMS as int));
        let after = ring_after_pushes(idx, arr, items);
        assert(after == (slot, prev.1.update(slot, items.last())));
        assert forall|j: int| 0 <= j < items.len() implies #[trigger] after.1[(idx + 1 + j) % (
        MAX_ITEMS as int)] == items[j] by {
            if j < n {
                assert((idx + 1 + j) % (MAX_ITEMS as int) != slot);
                assert(prev.1[(idx + 1 + j) % (MAX_ITEMS as int)] == rest[j]);
            }
        }
        assert forall|k: int| items.len() <= k < MAX_ITEMS implies #[trigger] after.1[(idx + 1
            + k) % (MAX_ITEMS as int)] == arr[(idx + 1 + k) % (MAX_ITEMS as int)] by {
            assert((idx + 1 + k) % (MAX_ITEMS as int) != slot);
            assert(prev.1[(idx + 1 + k) % (MAX_ITEMS as int)] == arr[(idx + 1 + k) % (
            MAX_ITEMS as int)]);
        }
    }
}

impl CircBufCluster {
    /// The buffer holds no entry: its flag byte is 1.
    pub open spec fn spec_is_empty(&self) -> bool {
        self.is_empty == 1
    }

    /// Reading the latest entry is defined: the buffer is empty, or `idx` names a slot.
    pub open spec fn readable(&self) -> bool {
        !self.spec_is_empty() ==> self.idx < MAX_ITEMS
    }

    /// Latest slot and entries, as `ring_after_pushes` describes them.
    pub open spec fn ring_state(&self) -> (int, Seq<ClusterHistoryEntry>) {
        (self.idx as int, self.arr@)
    }

    /// The latest entry, if the buffer holds one.
    pub open spec fn spec_last(&self) -> Option<ClusterHistoryEntry> {
        if self.spec_is_empty() {
            None
        } else {
            Some(self.arr@[self.idx as int])
        }
    }

    /// Writes `item` into the slot after `idx`, which becomes the latest entry.
    pub fn push(&mut self, item: ClusterHistoryEntry)
        requires
            old(self).idx < u64::MAX,
        ensures
            final(self).idx == next_slot(old(self).idx as int),
            final(self).arr@ == old(self).arr@.update(final(self).idx as int, item),
            final(self).is_empty == 0,
            final(self).padding == old(self).padding,
            final(self).readable(),
            final(self).spec_last() == Some(item),
            final(self).ring_state() == ring_after_pushes(
                old(self).idx as int,
                old(self).arr@,
                seq![item],
            ),
    {
        let ghost before = self.ring_state();
        self.idx = (self.idx + 1) % (MAX_ITEMS as u64);
        self.arr[self.idx as usize] = item;
        self.is_empty = 0;
        proof {
            let single = seq![item];
            assert(single.drop_last() =~= Seq::<ClusterHistoryEntry>::empty());
            assert(single.last() == item);
            reveal_with_fuel(ring_after_pushes, 2);
            assert(ring_after_pushes(before.0, before.1, single.drop_last()) == before);
        }
    }

    pub fn is_empty(&self) -> (b: bool)
        ensures
            b == self.spec_is_empty(),
    {
        self.is_empty == 1
    }

    /// The latest entry, or `None` when the buffer is empty.
    pub fn last(&self) -> (r: Option<&ClusterHistoryEntry>)
        requires
            self.readable(),
        ensures
            match r {
                None => self.spec_last() is None,
                Some(e) => self.spec_last() == Some(*e),
            },
    {
        if self.is_empty() {
            None
        } else {
            Some(&self.arr[self.idx as usize])
        }
    }

    /// A mutable reference to the latest entry, or `None` when the buffer is empty. What is
    /// written through the reference lands in the latest slot; nothing else changes.
    pub fn last_mut(&mut self) -> (r: Option<&mut ClusterHistoryEntry>)
        requires
            old(self).readable(),
        ensures
            old(self).spec_is_empty() ==> r is None && *final(self) == *old(self),
            !old(self).spec_is_empty() ==> r is Some,
            r matches Some(e) ==> *e == old(self).arr@[old(self).idx as int],
            r matches Some(e) ==> final(self).arr@ == old(self).arr@.update(
                old(self).idx as int,
                *final(e),
            ),
            r is Some ==> final(self).idx == old(self).idx && final(self).is_empty
                == old(self).is_empty && final(self).padding == old(self).padding,
    {
        if self.is_empty() {
            None
        } else {
            Some(&mut self.arr[self.idx as usize])
        }
    }

    /// The whole entry array as a mutable slice; the other fields stay as they are.
    pub fn arr_mut(&mut self) -> (r: &mut [ClusterHistoryEntry])
        ensures
            r@ == old(self).arr@,
            final(r)@ == final(self).arr@,
            final(self).idx == old(self).idx,
            final(self).is_empty == old(self).is_empty,
            final(self).padding == old(self).padding,
    {
        &mut self.arr
    }

    /// The total blocks of the latest entry, unless the buffer is empty or that field
    /// still holds its default (unset) value.
    pub fn total_blocks_latest(&self) -> (r: Option<u32>)
        requires
            self.readable(),
        ensures
            r == (match self.spec_last() {
                None => None,
                Some(e) => if e.total_blocks != u32::MAX {
                    Some(e.total_blocks)
                } else {
                    None
                },
            }),
    {
        if let Some(entry) = self.last() {
            if entry.total_blocks != ClusterHistoryEntry::default().total_blocks {
                Some(entry.total_blocks)
            } else {
                None
            }
        } else {
            None
        }
    }
}

} // verus!
