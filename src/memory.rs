//! Allocators for fixed-capacity memory regions.
pub mod contiguous;
pub mod slot;
pub mod shadow_oam;
pub mod block;
pub mod series;
pub mod strided_grid;
