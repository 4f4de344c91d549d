//! Single-element claims: a tracker that always reserves one element with
//! alignment one.
use vstd::prelude::*;

use super::contiguous::{run_fits, range_free, ClaimedMemoryRange, ContiguousMemoryTracker, OutOfMemoryError};

verus! {

/// An exclusive claim on one element of a slot tracker.
pub struct ClaimedMemorySlot {
    range: ClaimedMemoryRange,
}

impl ClaimedMemorySlot {
    /// The claimed element.
    pub closed spec fn spec_index(&self) -> int {
        self.range.spec_start()
    }

    /// The claimed element as a `(start, length)` pair.
    pub closed spec fn range(&self) -> (int, int) {
        self.range.range()
    }

    /// The identity under which the owning tracker records this slot.
    pub closed spec fn id(&self) -> nat {
        self.range.id()
    }

    pub fn index(&self) -> (r: usize)
        ensures
            r == self.spec_index(),
    {
        self.range.start()
    }
}

/// Occupancy of `C` individually claimed slots.
pub struct MemorySlotTracker<const C: usize> {
    tracker: ContiguousMemoryTracker<C>,
}

impl<const C: usize> MemorySlotTracker<C> {
    /// Occupancy of each slot.
    pub closed spec fn view(&self) -> Seq<bool> {
        self.tracker@
    }

    /// The live slots, by identity, as `(index, 1)` pairs.
    pub closed spec fn claims(&self) -> Map<nat, (int, int)> {
        self.tracker.claims()
    }

    pub closed spec fn wf(&self) -> bool {
        &&& self.tracker.wf()
        &&& forall|id: nat| #[trigger] self.tracker.claims().contains_key(id) ==> self.tracker.claims()[id].1 == 1
    }

    /// The slot `s` is live in this tracker.
    pub open spec fn owns(&self, s: &ClaimedMemorySlot) -> bool {
        self.claims().contains_key(s.id()) && self.claims()[s.id()] == s.range()
    }

    /// A well-formed tracker has `C` slots, each occupied exactly when a
    /// live slot claim holds it, and an owned slot lies in range.
    pub proof fn lemma_owned_slot_occupied(&self, s: &ClaimedMemorySlot)
        requires
            self.wf(),
            self.owns(s),
        ensures
            self@.len() == C,
            0 <= s.spec_index() < C,
            self@[s.spec_index()],
    {
        self.tracker.lemma_occupancy_is_union_of_claims();
        assert(s.range() == (s.spec_index(), 1int));
        assert(super::contiguous::in_range(self.claims()[s.id()], s.spec_index()));
    }

    /// A well-formed tracker has `C` slots.
    pub proof fn lemma_tracker_len(&self)
        requires
            self.wf(),
        ensures
            self@.len() == C,
    {
        self.tracker.lemma_occupancy_is_union_of_claims();
    }

    /// Whether slot `i` is claimed.
    pub fn is_occupied(&self, i: usize) -> (r: bool)
        requires
            self.wf(),
            i < C,
        ensures
            r == self@[i as int],
    {
        self.tracker.is_occupied(i)
    }

    pub fn new() -> (r: Self)
        ensures
            r.wf(),
            r@ == Seq::new(C as nat, |i: int| false),
            r.claims().is_empty(),
    {
        Self { tracker: ContiguousMemoryTracker::new() }
    }

    /// Claims the lowest free slot; fails, changing nothing, when all are taken.
    pub fn request_slot(&mut self) -> (r: Result<ClaimedMemorySlot, OutOfMemoryError>)
        requires
            old(self).wf(),
        ensures
            final(self).wf(),
            match r {
                Ok(slot) => {
                    &&& 0 <= slot.spec_index() < C
                    &&& !old(self)@[slot.spec_index()]
                    &&& forall|j: int| 0 <= j < slot.spec_index() ==> old(self)@[j]
                    &&& final(self)@ == old(self)@.update(slot.spec_index(), true)
                    &&& !old(self).claims().contains_key(slot.id())
                    &&& slot.range() == (slot.spec_index(), 1int)
                    &&& final(self).claims() == old(self).claims().insert(slot.id(), slot.range())
                },
                Err(_) => {
                    &&& forall|j: int| 0 <= j < C ==> old(self)@[j]
                    &&& *final(self) == *old(self)
                },
            },
    {
        proof { self.tracker.lemma_occupancy_is_union_of_claims(); }
        let ghost arr = self@;
        match self.tracker.request_aligned_memory(1, 1) {
            Ok(range) => {
                let ghost i = range.spec_start();
                assert(run_fits(arr, 1, 1, i));
                assert(range_free(arr, i, 1));
                assert(!arr[i]);
                assert forall|j: int| 0 <= j < i implies arr[j] by {
                    if !arr[j] {
                        assert(range_free(arr, j, 1));
                        assert(run_fits(arr, 1, 1, j));
                    }
                }
                assert(self@ =~= arr.update(i, true));
                Ok(ClaimedMemorySlot { range })
            },
            Err(e) => {
                assert forall|j: int| 0 <= j < C implies arr[j] by {
                    if !arr[j] {
                        assert(range_free(arr, j, 1));
                        assert(run_fits(arr, 1, 1, j));
                    }
                }
                Err(e)
            },
        }
    }

    /// Hands a slot back: it becomes free again.
    pub fn release_slot(&mut self, slot: ClaimedMemorySlot)
        requires
            old(self).wf(),
            old(self).owns(&slot),
        ensures
            final(self).wf(),
            final(self)@ == old(self)@.update(slot.spec_index(), false),
            final(self).claims() == old(self).claims().remove(slot.id()),
    {
        proof { self.lemma_owned_slot_occupied(&slot); }
        let ghost arr = self@;
        let ghost i = slot.spec_index();
        self.tracker.release(slot.range);
        assert(self@ =~= arr.update(i, false));
    }
}

} // verus!
