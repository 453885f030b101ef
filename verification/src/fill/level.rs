//! Fill based on the character's own level.

use vstd::prelude::*;
use crate::vec::Vector;

verus! {

/// A fill mode that hands the character's level through unchanged.
#[derive(Copy, Clone, PartialEq, Eq, Structural, Debug)]
pub struct LevelFillMode;

impl LevelFillMode {
    /// Creates the fill mode.
    pub fn new() -> (m: LevelFillMode) {
        LevelFillMode
    }

    /// Gets the fill for this character: its own level.
    pub fn sample(&self, level: i64, _pos: Vector) -> (r: i64)
        ensures
            r == level,
    {
        level
    }
}

} // verus!
