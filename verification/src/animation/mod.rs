//! Expanding-shape animations: samplers that map an animation step and a
//! position directly to a level, a thick boundary sweeping the grid.

mod circle;
mod rhombus;
mod rotation;

pub use circle::{circle_animation_spec, CircleAnimation};
pub use rhombus::{rhombus_animation_spec, RhombusAnimation};
pub use rotation::{rotation_animation_spec, RotationAnimation};

use vstd::prelude::*;
use crate::math::UNIT;
use crate::vec::Vector;

verus! {

/// A sampler for an animation: the level of brightness for a given step
/// of the animation and position on screen. A level of one or more keeps
/// the current character, a level in `[0, UNIT)` draws one, and a
/// negative level clears it.
pub trait Animation {
    /// The stored geometry supports sampling.
    spec fn wf(&self) -> bool;

    /// Returns the level for the given step and position.
    fn sample(&self, step: i64, pos: Vector) -> (r: i64)
        requires
            self.wf(),
            0 <= step <= UNIT,
            pos.in_range(),
    ;
}

} // verus!
