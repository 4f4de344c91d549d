//! Background tile maps, padded to the sizes the hardware supports.
use vstd::prelude::*;

use super::grid::{is_resized, resize_grid};

verus! {

/// Why a background cannot be built.
#[derive(Clone, Copy, Debug, PartialEq, Eq, Structural)]
pub enum BackgroundError {
    /// A side of the tile map exceeds 64 tiles.
    TooLarge,
}

/// Tile indices of a background, row-major, `width` by `height` tiles.
#[derive(Debug)]
pub struct Tilemap {
    indices: Vec<usize>,
    width: usize,
    height: usize,
}

/// The side a map of `n` tiles is padded to: 32, or 64 above that.
pub open spec fn padded_side(n: int) -> int {
    if n <= 32 { 32 } else { 64 }
}

impl Tilemap {
    pub closed spec fn view(&self) -> Seq<usize> {
        self.indices@
    }

    pub closed spec fn spec_width(&self) -> usize {
        self.width
    }

    pub closed spec fn spec_height(&self) -> usize {
        self.height
    }

    pub fn indices(&self) -> (r: &Vec<usize>)
        ensures
            r@ == self@,
    {
        &self.indices
    }

    pub fn width(&self) -> (r: usize)
        ensures
            r == self.spec_width(),
    {
        self.width
    }

    pub fn height(&self) -> (r: usize)
        ensures
            r == self.spec_height(),
    {
        self.height
    }
}

/// Pads a `width` by `height` map of tile indices with index 0 to 32 or 64
/// tiles a side; fails when a side exceeds 64.
pub fn convert_tilemap(indices: Vec<usize>, width: usize, height: usize) -> (r: Result<Tilemap, BackgroundError>)
    requires
        indices@.len() == width * height,
    ensures
        r is Err <==> width > 64 || height > 64,
        r matches Ok(t) ==> {
            &&& t.spec_width() == padded_side(width as int)
            &&& t.spec_height() == padded_side(height as int)
            &&& is_resized(t@, indices@, width as int, height as int, t.spec_width() as int, t.spec_height() as int, 0usize)
        },
{
    if width > 64 || height > 64 {
        return Err(BackgroundError::TooLarge);
    }
    let target_width: usize = if width <= 32 { 32 } else { 64 };
    let target_height: usize = if height <= 32 { 32 } else { 64 };
    let resized = resize_grid(indices, width, height, target_width, target_height);
    let ghost pad = choose|pad: usize| call_ensures(<usize as Default>::default, (), pad)
        && is_resized(resized@, indices@, width as int, height as int, target_width as int, target_height as int, pad);
    assert(pad == 0usize);
    Ok(Tilemap { indices: resized, width: target_width, height: target_height })
}

} // verus!
