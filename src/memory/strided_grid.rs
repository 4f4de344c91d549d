//! A strided-grid manager: claims whole frames of a two-dimensional map
//! memory of `FRAMES` frames, laid out `BYTE_STRIDE` bytes apart.
use vstd::prelude::*;

use super::contiguous::{first_fit_at, has_fit, mark, ClaimedMemoryRange, ContiguousMemoryTracker, OutOfMemoryError};

verus! {

/// A claimed run of consecutive frames.
pub struct ClaimedGridFrames {
    claimed_memory_range: ClaimedMemoryRange,
}

impl ClaimedGridFrames {
    pub closed spec fn spec_start(&self) -> int {
        self.claimed_memory_range.spec_start()
    }

    pub closed spec fn spec_size(&self) -> int {
        self.claimed_memory_range.spec_len()
    }

    pub fn get_start(&self) -> (r: usize)
        ensures
            r == self.spec_start(),
    {
        self.claimed_memory_range.start()
    }

    pub fn size(&self) -> (r: usize)
        ensures
            r == self.spec_size(),
    {
        self.claimed_memory_range.size()
    }

    /// The grid frame that holds frame `index` of this claim.
    pub fn get_frame(&self, index: usize) -> (r: usize)
        requires
            index < self.spec_size(),
            self.spec_start() + self.spec_size() <= usize::MAX,
        ensures
            r == self.spec_start() + index,
    {
        self.claimed_memory_range.start() + index
    }
}

/// Hands out runs of whole frames of one grid memory.
pub struct MemoryStridedGridManager<const FRAMES: usize, const BYTE_STRIDE: usize> {
    tracker: ContiguousMemoryTracker<FRAMES>,
}

impl<const FRAMES: usize, const BYTE_STRIDE: usize> MemoryStridedGridManager<FRAMES, BYTE_STRIDE> {
    pub closed spec fn view(&self) -> Seq<bool> {
        self.tracker@
    }

    pub closed spec fn wf(&self) -> bool {
        self.tracker.wf()
    }

    pub closed spec fn owns(&self, c: &ClaimedGridFrames) -> bool {
        self.tracker.owns(&c.claimed_memory_range)
    }

    pub fn new() -> (r: Self)
        ensures
            r.wf(),
            r@ == Seq::new(FRAMES as nat, |i: int| false),
    {
        Self { tracker: ContiguousMemoryTracker::new() }
    }

    /// Byte offset of grid frame `frame` from the start of the grid memory.
    pub fn frame_byte_offset(&self, frame: usize) -> (r: usize)
        requires
            frame * BYTE_STRIDE <= usize::MAX,
        ensures
            r == frame * BYTE_STRIDE,
    {
        frame * BYTE_STRIDE
    }

    /// Claims `count` consecutive frames at the lowest start where they are all free.
    pub fn request_memory(&mut self, count: usize) -> (r: Result<ClaimedGridFrames, OutOfMemoryError>)
        requires
            old(self).wf(),
        ensures
            final(self).wf(),
            match r {
                Ok(c) => {
                    &&& c.spec_size() == count
                    &&& first_fit_at(old(self)@, 1, count as int, c.spec_start())
                    &&& c.spec_start() + c.spec_size() <= FRAMES
                    &&& final(self)@ == mark(old(self)@, c.spec_start(), c.spec_size(), true)
                    &&& final(self).owns(&c)
                },
                Err(_) => !has_fit(old(self)@, 1, count as int) && *final(self) == *old(self),
            },
    {
        self.request_aligned_memory(1, count)
    }

    /// Claims `aligned_chunks` chunks of `alignment` frames, first-fit.
    pub fn request_aligned_memory(&mut self, alignment: usize, aligned_chunks: usize) -> (r: Result<ClaimedGridFrames, OutOfMemoryError>)
        requires
            old(self).wf(),
            alignment > 0,
        ensures
            final(self).wf(),
            match r {
                Ok(c) => {
                    &&& c.spec_size() == aligned_chunks * alignment
                    &&& first_fit_at(old(self)@, alignment as int, aligned_chunks as int, c.spec_start())
                    &&& c.spec_start() + c.spec_size() <= FRAMES
                    &&& final(self)@ == mark(old(self)@, c.spec_start(), c.spec_size(), true)
                    &&& final(self).owns(&c)
                },
                Err(_) => !has_fit(old(self)@, alignment as int, aligned_chunks as int) && *final(self) == *old(self),
            },
    {
        match self.tracker.request_aligned_memory(alignment, aligned_chunks) {
            Ok(claimed_memory_range) => {
                proof {
                    self.tracker.lemma_occupancy_is_union_of_claims();
                    assert(self.tracker.claims().contains_key(claimed_memory_range.id()));
                }
                Ok(ClaimedGridFrames { claimed_memory_range })
            },
            Err(e) => Err(e),
        }
    }

    /// Hands frames back: they become free again.
    pub fn release(&mut self, c: ClaimedGridFrames)
        requires
            old(self).wf(),
            old(self).owns(&c),
        ensures
            final(self).wf(),
            final(self)@ == mark(old(self)@, c.spec_start(), c.spec_size(), false),
    {
        self.tracker.release(c.claimed_memory_range);
    }
}

} // verus!
