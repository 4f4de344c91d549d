//! Alpha blending between layers.
use vstd::prelude::*;

verus! {

/// Owns the blending registers while a blend is active. The values to write
/// are computed here; writing them is the caller's part.
#[derive(Clone, Copy, Debug, PartialEq, Eq, Structural)]
pub struct BlendController {}

impl BlendController {
    pub fn new() -> (r: Self)
        ensures
            r == (BlendController {}),
    {
        Self {}
    }

    /// The blend-weights register value for weights `a` and `b`: `a` in the
    /// low byte, `b` in the high byte.
    pub fn blend_weights(&self, a: u8, b: u8) -> (r: u16)
        ensures
            r == a as int + 256 * (b as int),
    {
        (a as u16) + (b as u16) * 256
    }
}

} // verus!
