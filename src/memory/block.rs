//! A region manager: contiguous claims over one buffer of `C` elements.
use vstd::prelude::*;

use super::contiguous::{first_fit_at, has_fit, mark, ClaimedMemoryRange, ContiguousMemoryTracker, OutOfMemoryError};

verus! {

/// A claimed span `[start, start + size)` of a region's buffer.
pub struct ClaimedVolRegion {
    range: ClaimedMemoryRange,
}

impl ClaimedVolRegion {
    pub closed spec fn spec_start(&self) -> int {
        self.range.spec_start()
    }

    pub closed spec fn spec_size(&self) -> int {
        self.range.spec_len()
    }

    pub closed spec fn range(&self) -> ClaimedMemoryRange {
        self.range
    }

    pub fn get_start(&self) -> (r: usize)
        ensures
            r == self.spec_start(),
    {
        self.range.start()
    }

    pub fn size(&self) -> (r: usize)
        ensures
            r == self.spec_size(),
    {
        self.range.size()
    }

    /// The buffer index of element `i` of the span.
    pub fn element_index(&self, i: usize) -> (r: usize)
        requires
            i < self.spec_size(),
            self.spec_start() + self.spec_size() <= usize::MAX,
        ensures
            r == self.spec_start() + i,
    {
        self.range.start() + i
    }
}

/// Hands out claimed spans of one buffer of `C` elements.
pub struct MemoryBlockManager<const C: usize> {
    tracker: ContiguousMemoryTracker<C>,
}

impl<const C: usize> MemoryBlockManager<C> {
    /// Occupancy of the buffer.
    pub closed spec fn view(&self) -> Seq<bool> {
        self.tracker@
    }

    pub closed spec fn wf(&self) -> bool {
        self.tracker.wf()
    }

    /// The span `c` is live in this manager.
    pub closed spec fn owns(&self, c: &ClaimedVolRegion) -> bool {
        self.tracker.owns(&c.range)
    }

    pub fn new() -> (r: Self)
        ensures
            r.wf(),
            r@ == Seq::new(C as nat, |i: int| false),
    {
        Self { tracker: ContiguousMemoryTracker::new() }
    }

    /// Claims `size` elements at the lowest start where they are all free.
    pub fn request_memory(&mut self, size: usize) -> (r: Result<ClaimedVolRegion, OutOfMemoryError>)
        requires
            old(self).wf(),
        ensures
            final(self).wf(),
            match r {
                Ok(c) => {
                    &&& c.spec_size() == size
                    &&& first_fit_at(old(self)@, 1, size as int, c.spec_start())
                    &&& c.spec_start() + c.spec_size() <= C
                    &&& final(self)@ == mark(old(self)@, c.spec_start(), c.spec_size(), true)
                    &&& final(self).owns(&c)
                },
                Err(_) => !has_fit(old(self)@, 1, size as int) && *final(self) == *old(self),
            },
    {
        self.request_aligned_memory(1, size)
    }

    /// Claims `aligned_chunks` chunks of `alignment` elements, first-fit.
    pub fn request_aligned_memory(&mut self, alignment: usize, aligned_chunks: usize) -> (r: Result<ClaimedVolRegion, OutOfMemoryError>)
        requires
            old(self).wf(),
            alignment > 0,
        ensures
            final(self).wf(),
            match r {
                Ok(c) => {
                    &&& c.spec_size() == aligned_chunks * alignment
                    &&& first_fit_at(old(self)@, alignment as int, aligned_chunks as int, c.spec_start())
                    &&& c.spec_start() + c.spec_size() <= C
                    &&& final(self)@ == mark(old(self)@, c.spec_start(), c.spec_size(), true)
                    &&& final(self).owns(&c)
                },
                Err(_) => !has_fit(old(self)@, alignment as int, aligned_chunks as int) && *final(self) == *old(self),
            },
    {
        proof { self.tracker.lemma_occupancy_is_union_of_claims(); }
        match self.tracker.request_aligned_memory(alignment, aligned_chunks) {
            Ok(range) => {
                proof {
                    self.tracker.lemma_occupancy_is_union_of_claims();
                    assert(self.tracker.claims().contains_key(range.id()));
                }
                Ok(ClaimedVolRegion { range })
            },
            Err(e) => Err(e),
        }
    }

    /// Hands a span back: its elements become free again.
    pub fn release(&mut self, c: ClaimedVolRegion)
        requires
            old(self).wf(),
            old(self).owns(&c),
        ensures
            final(self).wf(),
            final(self)@ == mark(old(self)@, c.spec_start(), c.spec_size(), false),
    {
        self.tracker.release(c.range);
    }
}

} // verus!
