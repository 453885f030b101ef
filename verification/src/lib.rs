//! A timed full-screen terminal animation: procedurally generated scalar
//! fields sweep across the terminal grid, each cell resolving to a glyph and
//! color, a clear, or no change, over a fixed duration and frame rate.
//!
//! All levels, coordinates and animation steps are fixed-point numbers in
//! micro-units: the value `1.0` of the continuous model is [`math::UNIT`].
//! The crate computes frames and the exact terminal command stream for them;
//! an embedding program performs the actual terminal writes and sleeps.

pub mod animation;
pub mod array;
pub mod char;
pub mod chooser;
pub mod color;
pub mod convert;
pub mod error;
pub mod exec;
pub mod fill;
pub mod math;
pub mod pallet;
pub mod pattern;
pub mod printer;
pub mod render;
pub mod renderer;
pub mod runner;
pub mod sampler;
pub mod surface;
pub mod timer;
pub mod vec;

pub use math::UNIT;
pub use vec::Vector;
