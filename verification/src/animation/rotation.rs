//! An animation of a rotating beam.

use vstd::prelude::*;
use vstd::arithmetic::div_mod::{lemma_div_is_ordered, lemma_fundamental_div_mod_converse};
use crate::animation::Animation;
use crate::math::{div_floor, UNIT};
use crate::vec::{angle_spec, Vector, COORD_LIMIT, HALF_TURN};

verus! {

/// The beam width: a tenth of a turn, in micro-turns.
pub const ROTATION_THICKNESS: i64 = 100_000;

/// The angle swept over a whole run: a full turn plus one beam width on
/// each side, in micro-turns.
pub const FULL_ROTATION: i64 = 1_200_000;

/// A beam rotating around the grid center: its angle grows with the step
/// from below the half-turn boundary all the way around past it, and the
/// level is the position's angular distance from the beam in beam widths.
#[derive(Copy, Clone, PartialEq, Eq, Structural, Debug)]
pub struct RotationAnimation {
    /// The grid center.
    pub center: Vector,
}

/// The level: the position's angular distance from the beam at this step,
/// in beam widths.
pub open spec fn rotation_animation_spec(a: RotationAnimation, step: i64, pos: Vector) -> int {
    let beam = (FULL_ROTATION * step) / (UNIT as int) - HALF_TURN - ROTATION_THICKNESS;
    ((angle_spec(pos.x - a.center.x, pos.y - a.center.y) - beam) * UNIT) / (
    ROTATION_THICKNESS as int)
}

impl RotationAnimation {
    /// Creates the animation for a grid of the given size.
    pub fn new(size: Vector) -> (a: RotationAnimation)
        requires
            0 <= size.x <= COORD_LIMIT,
            0 <= size.y <= COORD_LIMIT,
        ensures
            a.center.x == size.x as int / 2,
            a.center.y == size.y as int / 2,
            a.wf(),
    {
        RotationAnimation { center: size.center() }
    }
}

impl Animation for RotationAnimation {
    /// The center is in range.
    open spec fn wf(&self) -> bool {
        &&& 0 <= self.center.x <= COORD_LIMIT
        &&& 0 <= self.center.y <= COORD_LIMIT
    }

    /// Returns the level for the given step and position.
    fn sample(&self, step: i64, pos: Vector) -> (r: i64)
        ensures
            r == rotation_animation_spec(*self, step, pos),
    {
        let swept = div_floor(FULL_ROTATION * step, UNIT);
        proof {
            lemma_div_is_ordered(0, FULL_ROTATION as int * step as int, UNIT as int);
            lemma_fundamental_div_mod_converse(0, UNIT as int, 0, 0);
            lemma_div_is_ordered(
                FULL_ROTATION as int * step as int,
                (UNIT as int) * (FULL_ROTATION as int),
                UNIT as int,
            );
            lemma_fundamental_div_mod_converse(
                (UNIT as int) * (FULL_ROTATION as int),
                UNIT as int,
                FULL_ROTATION as int,
                0,
            );
        }
        let beam = swept - HALF_TURN - ROTATION_THICKNESS;
        let turns = pos.sub(self.center).angle();
        div_floor((turns - beam) * UNIT, ROTATION_THICKNESS)
    }
}

} // verus!
