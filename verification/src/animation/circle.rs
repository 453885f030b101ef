//! An animation of an expanding ring.

use vstd::prelude::*;
use vstd::arithmetic::div_mod::{
    lemma_div_is_ordered, lemma_div_multiples_vanish, lemma_fundamental_div_mod_converse,
};
use crate::animation::Animation;
use crate::math::{div_floor, UNIT};
use crate::vec::{len_spec, Vector, COORD_LIMIT};

verus! {

/// An expanding ring around the grid center: the ring's radius grows with
/// the step from below zero to past the corners, and the level is the
/// signed distance from the ring in ring widths.
#[derive(Copy, Clone, PartialEq, Eq, Structural, Debug)]
pub struct CircleAnimation {
    /// The grid center.
    pub center: Vector,
    /// The ring width: a fifth of the center's distance from the corner.
    pub thickness: i64,
    /// The radius at full progress: past the corner by two ring widths.
    pub final_radius: i64,
}

/// The level: the position's distance from the ring at this step, in ring
/// widths.
pub open spec fn circle_animation_spec(a: CircleAnimation, step: i64, pos: Vector) -> int {
    let radius = (a.final_radius * step) / (UNIT as int) - a.thickness;
    ((len_spec(
        Vector { x: (pos.x - a.center.x) as i64, y: (pos.y - a.center.y) as i64 },
    ) - radius) * UNIT) / (a.thickness as int)
}

impl CircleAnimation {
    /// Creates the animation for a grid of the given size.
    pub fn new(size: Vector) -> (a: CircleAnimation)
        requires
            0 <= size.x <= COORD_LIMIT,
            0 <= size.y <= COORD_LIMIT,
        ensures
            a.center.x == size.x as int / 2,
            a.center.y == size.y as int / 2,
            a.thickness == len_spec(a.center) / 5,
            a.final_radius == (7 * len_spec(a.center)) / 5,
            0 <= a.thickness <= COORD_LIMIT,
            0 <= a.final_radius <= 6 * COORD_LIMIT,
    {
        let center = size.center();
        let distance = center.len();
        let thickness = div_floor(distance, 5);
        let final_radius = div_floor(7 * distance, 5);
        proof {
            lemma_div_is_ordered(0, distance as int, 5);
            lemma_fundamental_div_mod_converse(0, 5, 0, 0);
            lemma_div_is_ordered(distance as int, 4 * (COORD_LIMIT as int), 5);
            lemma_div_is_ordered(0, 7 * (distance as int), 5);
            lemma_div_is_ordered(7 * (distance as int), 28 * (COORD_LIMIT as int), 5);
        }
        CircleAnimation { center, thickness, final_radius }
    }
}

impl Animation for CircleAnimation {
    /// The center is in range and the ring has a positive width.
    open spec fn wf(&self) -> bool {
        &&& 0 <= self.center.x <= COORD_LIMIT
        &&& 0 <= self.center.y <= COORD_LIMIT
        &&& 1 <= self.thickness <= COORD_LIMIT
        &&& 0 <= self.final_radius <= 6 * COORD_LIMIT
    }

    /// Returns the level for the given step and position.
    fn sample(&self, step: i64, pos: Vector) -> (r: i64)
        ensures
            r == circle_animation_spec(*self, step, pos),
    {
        proof {
            assert(0 <= (self.final_radius as int) * (step as int) <= 6 * (COORD_LIMIT as int)
                * (UNIT as int)) by (nonlinear_arith)
                requires
                    0 <= (self.final_radius as int) <= 6 * (COORD_LIMIT as int),
                    0 <= (step as int) <= (UNIT as int),
            ;
        }
        let grown = div_floor(self.final_radius * step, UNIT);
        proof {
            lemma_div_is_ordered(0, self.final_radius as int * step as int, UNIT as int);
            lemma_fundamental_div_mod_converse(0, UNIT as int, 0, 0);
            lemma_div_is_ordered(
                self.final_radius as int * step as int,
                (UNIT as int) * (6 * (COORD_LIMIT as int)),
                UNIT as int,
            );
            lemma_div_multiples_vanish(6 * (COORD_LIMIT as int), UNIT as int);
        }
        let radius = grown - self.thickness;
        let distance = pos.sub(self.center).len();
        div_floor((distance - radius) * UNIT, self.thickness)
    }
}

} // verus!
