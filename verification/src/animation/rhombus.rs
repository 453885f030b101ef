//! An animation of an expanding rhombus.

use vstd::prelude::*;
use vstd::arithmetic::div_mod::{
    lemma_div_is_ordered, lemma_div_multiples_vanish, lemma_fundamental_div_mod_converse,
};
use crate::animation::Animation;
use crate::math::{div_floor, UNIT};
use crate::vec::{abs_i, Vector, COORD_LIMIT};

verus! {

/// An expanding rhombus around the grid center: its Manhattan radius
/// grows with the step from below zero to past the edges, and the level
/// is the signed Manhattan distance from the boundary in band widths.
#[derive(Copy, Clone, PartialEq, Eq, Structural, Debug)]
pub struct RhombusAnimation {
    /// The grid center.
    pub center: Vector,
    /// The band width: a fifth of the center's Manhattan radius.
    pub thickness: i64,
    /// The Manhattan radius at full progress: past the edges by two band
    /// widths.
    pub final_distance: i64,
}

/// The level: the position's Manhattan distance from the boundary at this
/// step, in band widths.
pub open spec fn rhombus_animation_spec(a: RhombusAnimation, step: i64, pos: Vector) -> int {
    let boundary = (a.final_distance * step) / (UNIT as int) - a.thickness;
    ((abs_i(a.center.x - pos.x) + abs_i(a.center.y - pos.y) - boundary) * UNIT) / (
    a.thickness as int)
}

impl RhombusAnimation {
    /// Creates the animation for a grid of the given size.
    pub fn new(size: Vector) -> (a: RhombusAnimation)
        requires
            0 <= size.x <= COORD_LIMIT,
            0 <= size.y <= COORD_LIMIT,
        ensures
            a.center.x == size.x as int / 2,
            a.center.y == size.y as int / 2,
            a.thickness == (a.center.x + a.center.y) as int / 5,
            a.final_distance == (7 * (a.center.x + a.center.y)) / 5,
            0 <= a.thickness <= COORD_LIMIT,
            0 <= a.final_distance <= 3 * COORD_LIMIT,
    {
        let center = size.center();
        let distance = center.sum();
        let thickness = div_floor(distance, 5);
        let final_distance = div_floor(7 * distance, 5);
        proof {
            lemma_div_is_ordered(0, distance as int, 5);
            lemma_fundamental_div_mod_converse(0, 5, 0, 0);
            lemma_div_is_ordered(distance as int, 2 * (COORD_LIMIT as int), 5);
            lemma_div_is_ordered(0, 7 * (distance as int), 5);
            lemma_div_is_ordered(7 * (distance as int), 14 * (COORD_LIMIT as int), 5);
        }
        RhombusAnimation { center, thickness, final_distance }
    }
}

impl Animation for RhombusAnimation {
    /// The center is in range and the band has a positive width.
    open spec fn wf(&self) -> bool {
        &&& 0 <= self.center.x <= COORD_LIMIT
        &&& 0 <= self.center.y <= COORD_LIMIT
        &&& 1 <= self.thickness <= COORD_LIMIT
        &&& 0 <= self.final_distance <= 3 * COORD_LIMIT
    }

    /// Returns the level for the given step and position.
    fn sample(&self, step: i64, pos: Vector) -> (r: i64)
        ensures
            r == rhombus_animation_spec(*self, step, pos),
    {
        proof {
            assert(0 <= (self.final_distance as int) * (step as int) <= 3 * (COORD_LIMIT as int)
                * (UNIT as int)) by (nonlinear_arith)
                requires
                    0 <= (self.final_distance as int) <= 3 * (COORD_LIMIT as int),
                    0 <= (step as int) <= (UNIT as int),
            ;
        }
        let grown = div_floor(self.final_distance * step, UNIT);
        proof {
            lemma_div_is_ordered(0, self.final_distance as int * step as int, UNIT as int);
            lemma_fundamental_div_mod_converse(0, UNIT as int, 0, 0);
            lemma_div_is_ordered(
                self.final_distance as int * step as int,
                (UNIT as int) * (3 * (COORD_LIMIT as int)),
                UNIT as int,
            );
            lemma_div_multiples_vanish(3 * (COORD_LIMIT as int), UNIT as int);
        }
        let boundary = grown - self.thickness;
        let distance = self.center.sub(pos).abs().sum();
        div_floor((distance - boundary) * UNIT, self.thickness)
    }
}

} // verus!
