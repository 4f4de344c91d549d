//! A rotation that slows down by a fixed decay every frame.
use vstd::prelude::*;

use crate::math::{cos, sin, LookupTable};

verus! {

#[derive(Clone, Copy, Debug, PartialEq, Eq, Structural)]
pub struct Spinner {
    rotation: u16,
    speed: u16,
    decay: u16,
}

impl Spinner {
    pub closed spec fn spec_rotation(&self) -> u16 {
        self.rotation
    }

    pub closed spec fn spec_speed(&self) -> u16 {
        self.speed
    }

    pub closed spec fn spec_decay(&self) -> u16 {
        self.decay
    }

    pub fn new(initial_speed: u16, decay: u16) -> (r: Self)
        ensures
            r.spec_rotation() == 0,
            r.spec_speed() == initial_speed,
            r.spec_decay() == decay,
    {
        Self { rotation: 0, speed: initial_speed, decay }
    }

    pub fn set_speed(&mut self, speed: u16)
        ensures
            final(self).spec_speed() == speed,
            final(self).spec_rotation() == old(self).spec_rotation(),
            final(self).spec_decay() == old(self).spec_decay(),
    {
        self.speed = speed;
    }

    /// Slows down by the decay (stopping at zero), then turns by the new
    /// speed, wrapping around a full turn of 65536.
    pub fn update(&mut self)
        ensures
            final(self).spec_speed() == if old(self).spec_speed() < old(self).spec_decay() { 0 } else {
                (old(self).spec_speed() - old(self).spec_decay()) as u16
            },
            final(self).spec_rotation() == (old(self).spec_rotation() + final(self).spec_speed()) % 65536,
            final(self).spec_decay() == old(self).spec_decay(),
    {
        self.speed = if self.speed < self.decay {
            0
        } else {
            self.speed - self.decay
        };
        self.rotation = self.rotation.wrapping_add(self.speed);
    }

    pub fn finished(&self) -> (r: bool)
        ensures
            r == (self.spec_speed() == 0),
    {
        self.speed == 0
    }

    /// The affine parameters `(a, b, c, d)` that rotate an object by the
    /// current rotation: `(cos, -sin, sin, cos)`.
    pub fn affine_params(&self, table: &LookupTable) -> (r: (i16, i16, i16, i16))
        requires
            table.wf(),
            forall|i: int| 0 <= i < table@.len() ==> (#[trigger] table@[i]) > i16::MIN,
        ensures
            r.0 == table@[(self.spec_rotation() as int / 128 + 128) % 512],
            r.1 == -table@[self.spec_rotation() as int / 128],
            r.2 == table@[self.spec_rotation() as int / 128],
            r.3 == r.0,
    {
        let c = cos(table, self.rotation);
        let s = sin(table, self.rotation);
        proof {
            let i = self.rotation as int / 128;
            assert(0 <= i < 512);
            assert(table@[i] > i16::MIN);
        }
        (c, -s, s, c)
    }

    pub fn rotation(&self) -> (r: u16)
        ensures
            r == self.spec_rotation(),
    {
        self.rotation
    }
}

} // verus!
