//! A series manager: single-slot claims over a series of `C` records.
use vstd::prelude::*;

use super::contiguous::OutOfMemoryError;
use super::slot::{ClaimedMemorySlot, MemorySlotTracker};

verus! {

/// A claimed record of a series.
pub struct ClaimedVolAddress {
    memory_slot: ClaimedMemorySlot,
}

impl ClaimedVolAddress {
    pub closed spec fn spec_index(&self) -> int {
        self.memory_slot.spec_index()
    }

    pub closed spec fn slot(&self) -> ClaimedMemorySlot {
        self.memory_slot
    }

    pub fn get_index(&self) -> (r: usize)
        ensures
            r == self.spec_index(),
    {
        self.memory_slot.index()
    }
}

/// Hands out single records of a series of `C`.
pub struct MemorySeriesManager<const C: usize> {
    tracker: MemorySlotTracker<C>,
}

impl<const C: usize> MemorySeriesManager<C> {
    pub closed spec fn view(&self) -> Seq<bool> {
        self.tracker@
    }

    pub closed spec fn wf(&self) -> bool {
        self.tracker.wf()
    }

    pub closed spec fn owns(&self, c: &ClaimedVolAddress) -> bool {
        self.tracker.owns(&c.memory_slot)
    }

    pub fn new() -> (r: Self)
        ensures
            r.wf(),
            r@ == Seq::new(C as nat, |i: int| false),
    {
        Self { tracker: MemorySlotTracker::new() }
    }

    /// Claims the lowest free record; fails, changing nothing, when all are taken.
    pub fn request_slot(&mut self) -> (r: Result<ClaimedVolAddress, OutOfMemoryError>)
        requires
            old(self).wf(),
        ensures
            final(self).wf(),
            match r {
                Ok(c) => {
                    &&& 0 <= c.spec_index() < C
                    &&& !old(self)@[c.spec_index()]
                    &&& forall|j: int| 0 <= j < c.spec_index() ==> old(self)@[j]
                    &&& final(self)@ == old(self)@.update(c.spec_index(), true)
                    &&& final(self).owns(&c)
                },
                Err(_) => (forall|j: int| 0 <= j < C ==> old(self)@[j]) && *final(self) == *old(self),
            },
    {
        match self.tracker.request_slot() {
            Ok(memory_slot) => Ok(ClaimedVolAddress { memory_slot }),
            Err(e) => Err(e),
        }
    }

    /// Hands a record back: it becomes free again.
    pub fn release(&mut self, c: ClaimedVolAddress)
        requires
            old(self).wf(),
            old(self).owns(&c),
        ensures
            final(self).wf(),
            final(self)@ == old(self)@.update(c.spec_index(), false),
    {
        self.tracker.release_slot(c.memory_slot);
    }
}

} // verus!
