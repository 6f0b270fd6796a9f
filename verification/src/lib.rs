//! Fixed-point physics of a side-scrolling platformer character: horizontal
//! movement, gravity, landing on platforms and jumping.
//!
//! Time is counted in ticks of one millisecond and lengths in units of a
//! ten-millionth of a pixel, so that every constant of the simulation is a
//! whole number and every frame is computed exactly.
pub mod geometry;
pub mod player;
pub mod world;
pub mod laws;
