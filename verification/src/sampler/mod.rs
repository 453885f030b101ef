//! Converters that wrap cyclically instead of clamping: every level picks
//! an entry, however far outside the unit range it lies.

mod char;
mod level;

pub use crate::sampler::char::CharConverterImpl;
pub use crate::sampler::level::{Level, LevelConverterImpl};
