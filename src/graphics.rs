//! Display-side logic: background geometry and frame-by-frame effects.
pub mod background;
pub mod effects;
pub mod sprite;
