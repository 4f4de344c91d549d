//! A drum roll: an impact sound every `delay` frames, with a delay that may
//! change at the next beat.
use vstd::prelude::*;

verus! {

#[derive(Clone, Copy, Debug, PartialEq, Eq, Structural)]
pub struct DrumRoll {
    delay: u32,
    counter: u32,
    next_delay: u32,
}

impl DrumRoll {
    pub closed spec fn spec_delay(&self) -> u32 {
        self.delay
    }

    pub closed spec fn spec_next_delay(&self) -> u32 {
        self.next_delay
    }

    /// Frames counted since the last beat.
    pub closed spec fn spec_counter(&self) -> u32 {
        self.counter
    }

    pub closed spec fn wf(&self) -> bool {
        &&& self.delay > 0
        &&& self.next_delay > 0
        &&& self.counter < self.delay
    }

    pub fn new(delay: u32) -> (r: Self)
        requires
            delay > 0,
        ensures
            r.wf(),
            r.spec_delay() == delay,
            r.spec_next_delay() == delay,
            r.spec_counter() == 0,
    {
        Self { delay, next_delay: delay, counter: 0 }
    }

    /// Sets the delay that takes effect at the next beat.
    pub fn set_delay(&mut self, delay: u32)
        requires
            old(self).wf(),
            delay > 0,
        ensures
            final(self).wf(),
            final(self).spec_next_delay() == delay,
            final(self).spec_delay() == old(self).spec_delay(),
            final(self).spec_counter() == old(self).spec_counter(),
    {
        self.next_delay = delay;
    }

    /// Counts one frame. Returns whether this frame is a beat, at which the
    /// impact sound is to be played; a beat restarts the count and takes up
    /// the pending delay.
    pub fn update(&mut self) -> (beat: bool)
        requires
            old(self).wf(),
        ensures
            final(self).wf(),
            beat == (old(self).spec_counter() + 1 == old(self).spec_delay()),
            final(self).spec_next_delay() == old(self).spec_next_delay(),
            beat ==> final(self).spec_counter() == 0 && final(self).spec_delay() == old(self).spec_next_delay(),
            !beat ==> final(self).spec_counter() == old(self).spec_counter() + 1
                && final(self).spec_delay() == old(self).spec_delay(),
    {
        self.counter = self.counter + 1;
        proof {
            let c = self.counter as int;
            let d = self.delay as int;
            if c < d {
                assert(c % d == c) by (nonlinear_arith) requires 0 < c < d;
            } else {
                assert(c % d == 0) by (nonlinear_arith) requires c == d, d > 0;
            }
        }
        if self.counter % self.delay == 0 {
            self.counter = 0;
            self.delay = self.next_delay;
            true
        } else {
            false
        }
    }
}

} // verus!
