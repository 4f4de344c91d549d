//! Frame-by-frame visual effects.
use vstd::prelude::*;

use crate::memory::shadow_oam::{ObjAttr, ObjDisplayStyle};

pub mod background_scroller;
pub mod blending;
pub mod spinner;

verus! {

/// Phase of a blinker, with the frames left in it.
#[derive(Clone, Copy, Debug, PartialEq, Eq, Structural)]
pub enum BlinkState {
    On(u32),
    Off(u32),
}

/// Alternates an object between shown and hidden: `time_on + 1` frames
/// shown, then `time_off + 1` frames hidden.
#[derive(Clone, Copy, Debug, PartialEq, Eq, Structural)]
pub struct Blinker {
    time_on: u32,
    time_off: u32,
    state: BlinkState,
}

/// The state that follows `s` after one frame.
pub open spec fn next_blink(s: BlinkState, time_on: u32, time_off: u32) -> BlinkState {
    match s {
        BlinkState::On(t) => if t > 0 { BlinkState::On((t - 1) as u32) } else { BlinkState::Off(time_off) },
        BlinkState::Off(t) => if t > 0 { BlinkState::Off((t - 1) as u32) } else { BlinkState::On(time_on) },
    }
}

impl Blinker {
    pub closed spec fn spec_state(&self) -> BlinkState {
        self.state
    }

    pub closed spec fn spec_time_on(&self) -> u32 {
        self.time_on
    }

    pub closed spec fn spec_time_off(&self) -> u32 {
        self.time_off
    }

    pub fn new(time_on: u32, time_off: u32, initial_status: bool) -> (r: Self)
        ensures
            r.spec_time_on() == time_on,
            r.spec_time_off() == time_off,
            r.spec_state() == if initial_status { BlinkState::On(time_on) } else { BlinkState::Off(time_off) },
    {
        let state = if initial_status {
            BlinkState::On(time_on)
        } else {
            BlinkState::Off(time_off)
        };
        Self { time_on, time_off, state }
    }

    /// Advances one frame.
    pub fn update(&mut self)
        ensures
            final(self).spec_state() == next_blink(old(self).spec_state(), old(self).spec_time_on(), old(self).spec_time_off()),
            final(self).spec_time_on() == old(self).spec_time_on(),
            final(self).spec_time_off() == old(self).spec_time_off(),
    {
        self.state = match self.state {
            BlinkState::On(time) => {
                if time > 0 {
                    BlinkState::On(time - 1)
                } else {
                    BlinkState::Off(self.time_off)
                }
            },
            BlinkState::Off(time) => {
                if time > 0 {
                    BlinkState::Off(time - 1)
                } else {
                    BlinkState::On(self.time_on)
                }
            },
        };
    }

    /// Whether the object is currently shown.
    pub fn is_on(&self) -> (r: bool)
        ensures
            r == (self.spec_state() is On),
    {
        matches!(self.state, BlinkState::On(_))
    }

    /// Shows or hides `oa` according to the current phase.
    pub fn apply_to_object(&self, oa: &mut ObjAttr)
        ensures
            *final(oa) == (ObjAttr {
                style: if self.spec_state() is On { ObjDisplayStyle::Normal } else { ObjDisplayStyle::NotDisplayed },
                ..*old(oa)
            }),
    {
        let style = match self.state {
            BlinkState::On(_) => ObjDisplayStyle::Normal,
            BlinkState::Off(_) => ObjDisplayStyle::NotDisplayed,
        };
        oa.set_style(style);
    }
}

} // verus!
