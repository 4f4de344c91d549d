//! Runtime resource management for a small handheld game: fixed-capacity
//! memory-region allocators and a shadow object-attribute table, with the
//! logic that uses them: asset preparation (palettes, tiles, bin packing),
//! audio buffering and mixing, display effects, key input and the board
//! game's rules and turns.
pub mod assets;
pub mod audio;
pub mod game;
pub mod graphics;
pub mod input;
pub mod math;
pub mod memory;
