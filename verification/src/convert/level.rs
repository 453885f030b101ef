//! Conversion of a raw level to a tri-state drawing decision that keeps
//! the level of drawn cells.

use vstd::prelude::*;
use crate::math::UNIT;

verus! {

/// A converted level.
#[derive(Copy, Clone, PartialEq, Eq, Structural, Debug)]
pub enum Level {
    /// Keep the cell.
    Keep,
    /// Draw with the given level in `[0, UNIT)`.
    Draw(i64),
    /// Clear the cell.
    Clear,
}

/// What a raw level converts to: negative levels keep, levels in
/// `[0, UNIT)` draw, levels of at least `UNIT` clear.
pub open spec fn level_convert_spec(level: int) -> Level {
    if level < 0 {
        Level::Keep
    } else if level < UNIT {
        Level::Draw(level as i64)
    } else {
        Level::Clear
    }
}

/// Converts a raw level to a [`Level`].
pub struct LevelConverterImpl;

impl LevelConverterImpl {
    /// Converts the level.
    pub fn convert(&self, level: i64) -> (r: Level)
        ensures
            r == level_convert_spec(level as int),
    {
        if level < 0 {
            Level::Keep
        } else if level < UNIT {
            Level::Draw(level)
        } else {
            Level::Clear
        }
    }
}

impl Default for LevelConverterImpl {
    /// Creates the converter.
    fn default() -> (c: LevelConverterImpl) {
        LevelConverterImpl
    }
}

} // verus!
