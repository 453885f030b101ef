//! Fill based on diagonal stripes.

use vstd::prelude::*;
use crate::math::{div_floor, mod_euclid, UNIT};
use crate::vec::{Vector, COORD_LIMIT};

verus! {

/// A fill mode that cycles along the grid diagonals: each stripe of one
/// interval sweeps the fill range once.
#[derive(Copy, Clone, PartialEq, Eq, Structural, Debug)]
pub struct StripesFillMode {
    /// The stripe width: a quarter of the smaller grid axis.
    pub interval: i64,
}

/// The fill of a position: the sum of its axes, reduced to one stripe and
/// scaled to the unit range.
pub open spec fn stripes_fill_spec(interval: i64, pos: Vector) -> int {
    (((pos.x + pos.y) % (interval as int)) * UNIT) / (interval as int)
}

impl StripesFillMode {
    /// The interval is positive and in range.
    pub open spec fn wf(&self) -> bool {
        1 <= self.interval <= COORD_LIMIT
    }

    /// Creates the fill mode for a grid of the given size.
    pub fn new(size: Vector) -> (m: StripesFillMode)
        requires
            0 <= size.x <= COORD_LIMIT,
            0 <= size.y <= COORD_LIMIT,
        ensures
            m.interval == (if size.x <= size.y {
                size.x as int
            } else {
                size.y as int
            }) / 4,
    {
        StripesFillMode { interval: div_floor(size.smaller(), 4) }
    }

    /// Gets the fill for this character's position.
    pub fn sample(&self, _level: i64, pos: Vector) -> (r: i64)
        requires
            self.wf(),
            pos.in_range(),
        ensures
            r == stripes_fill_spec(self.interval, pos),
            0 <= r < UNIT,
    {
        let sum = pos.sum();
        let stripe = mod_euclid(sum, self.interval);
        proof {
            crate::math::lemma_scale_index_bound(stripe as int, UNIT as int, self.interval as int);
            assert((stripe as int) * (UNIT as int) == (UNIT as int) * (stripe as int))
                by (nonlinear_arith);
        }
        div_floor(stripe * UNIT, self.interval)
    }
}

} // verus!
