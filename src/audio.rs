//! Audio pacing and sources.
pub mod drum_roll;
pub mod mixer;
pub mod music;
