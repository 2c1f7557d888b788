//! Bella: a small 2D engine core built around a virtual clock and a
//! per-frame input latch.
pub mod assets;
pub mod input;
pub mod instance;
pub mod time;
