//! Asset preparation: palette banks, bin packing, grid resizing and tile
//! conversion of indexed images.
pub mod background;
pub mod binpack;
pub mod grid;
pub mod palette;
pub mod tiles;
