//! Core rules of a small 2D dodging game: a player sprite slides left and
//! right along the bottom of the screen while enemy sprites fall from the top
//! edge in random directions.
//!
//! All quantities are held as fixed-point integers so that every update is
//! exact: positions in nano-pixels (`units::NANOS_PER_PIXEL` per screen
//! pixel), frame times in whole microseconds, speeds in pixels per second,
//! and direction vectors in thousandths (`units::DIR_SCALE` stands for 1.0).
//! The rendering engine around this crate converts to and from its own
//! floating-point coordinates at the boundary.

pub mod enemy;
pub mod player;
mod rng;
pub mod spawner;
pub mod units;
pub mod world;
