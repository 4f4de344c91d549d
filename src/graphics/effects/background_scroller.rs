//! Scrolls a background by a fixed speed every few frames.
use vstd::prelude::*;

verus! {

/// The scroll registers hold 9 bits: offsets wrap at this value.
pub const MAX_SCROLL: u16 = 512;

/// Scrolls a background by `(x_speed, y_speed)` once every `divisor` frames.
#[derive(Clone, Copy, Debug, PartialEq, Eq, Structural)]
pub struct BackgroundScroller {
    x_speed: u16,
    y_speed: u16,
    x_offset: u16,
    y_offset: u16,
    divisor: u16,
    counter: u16,
}

impl BackgroundScroller {
    pub closed spec fn spec_offsets(&self) -> (int, int) {
        (self.x_offset as int, self.y_offset as int)
    }

    pub closed spec fn spec_speeds(&self) -> (int, int) {
        (self.x_speed as int, self.y_speed as int)
    }

    pub closed spec fn spec_divisor(&self) -> int {
        self.divisor as int
    }

    /// Frames counted since the last step.
    pub closed spec fn spec_counter(&self) -> int {
        self.counter as int
    }

    pub closed spec fn wf(&self) -> bool {
        &&& self.divisor > 0
        &&& self.counter < self.divisor
        &&& self.x_offset < MAX_SCROLL
        &&& self.y_offset < MAX_SCROLL
    }

    pub fn new(x_speed: u16, y_speed: u16) -> (r: Self)
        ensures
            r.wf(),
            r.spec_speeds() == (x_speed as int, y_speed as int),
            r.spec_offsets() == (0int, 0int),
            r.spec_divisor() == 1,
            r.spec_counter() == 0,
    {
        BackgroundScroller { x_speed, y_speed, x_offset: 0, y_offset: 0, divisor: 1, counter: 0 }
    }

    /// The same scroller, stepping once every `divisor` frames.
    pub fn with_divisor(self, divisor: u16) -> (r: Self)
        requires
            self.wf(),
            divisor > 0,
        ensures
            r.wf(),
            r.spec_speeds() == self.spec_speeds(),
            r.spec_offsets() == self.spec_offsets(),
            r.spec_divisor() == divisor,
            r.spec_counter() == 0,
    {
        let mut s = self;
        s.divisor = divisor;
        s.counter = 0;
        s
    }

    /// Counts one frame; on every `divisor`-th frame moves each offset by its
    /// speed, modulo 512.
    pub fn update(&mut self)
        requires
            old(self).wf(),
        ensures
            final(self).wf(),
            final(self).spec_speeds() == old(self).spec_speeds(),
            final(self).spec_divisor() == old(self).spec_divisor(),
            if old(self).spec_counter() + 1 == old(self).spec_divisor() {
                &&& final(self).spec_counter() == 0
                &&& final(self).spec_offsets() == (
                    (old(self).spec_offsets().0 + old(self).spec_speeds().0) % 512,
                    (old(self).spec_offsets().1 + old(self).spec_speeds().1) % 512,
                )
            } else {
                &&& final(self).spec_counter() == old(self).spec_counter() + 1
                &&& final(self).spec_offsets() == old(self).spec_offsets()
            },
    {
        self.counter = self.counter + 1;
        proof {
            let c = self.counter as int;
            let d = self.divisor as int;
            if c < d {
                assert(c % d == c) by (nonlinear_arith) requires 0 < c < d;
            } else {
                assert(c % d == 0) by (nonlinear_arith) requires c == d, d > 0;
            }
        }
        if self.counter % self.divisor == 0 {
            self.x_offset = ((self.x_offset as u32 + self.x_speed as u32) % (MAX_SCROLL as u32)) as u16;
            self.y_offset = ((self.y_offset as u32 + self.y_speed as u32) % (MAX_SCROLL as u32)) as u16;
            self.counter = 0;
        }
    }

    /// The current horizontal and vertical scroll offsets.
    pub fn offsets(&self) -> (r: (u16, u16))
        ensures
            r.0 == self.spec_offsets().0,
            r.1 == self.spec_offsets().1,
    {
        (self.x_offset, self.y_offset)
    }
}

} // verus!
