//! Fill based on rings of a circle.

use vstd::prelude::*;
use crate::math::{div_floor, mod_euclid, UNIT};
use crate::vec::{len_spec, Vector, COORD_LIMIT};

verus! {

/// A fill mode that cycles with the distance from the grid center: each
/// ring of one interval sweeps the fill range once.
#[derive(Copy, Clone, PartialEq, Eq, Structural, Debug)]
pub struct CircleFillMode {
    /// The grid center.
    pub center: Vector,
    /// The ring width: a quarter of the smaller grid axis.
    pub interval: i64,
}

/// The fill of a position: its distance from the center, reduced to one
/// ring and scaled to the unit range.
pub open spec fn circle_fill_spec(center: Vector, interval: i64, pos: Vector) -> int {
    ((len_spec(
        Vector { x: (pos.x - center.x) as i64, y: (pos.y - center.y) as i64 },
    ) % (interval as int)) * UNIT) / (interval as int)
}

impl CircleFillMode {
    /// The stored geometry is in range and the interval is positive.
    pub open spec fn wf(&self) -> bool {
        &&& 0 <= self.center.x <= COORD_LIMIT
        &&& 0 <= self.center.y <= COORD_LIMIT
        &&& 1 <= self.interval <= COORD_LIMIT
    }

    /// Creates the fill mode for a grid of the given size.
    pub fn new(size: Vector) -> (m: CircleFillMode)
        requires
            0 <= size.x <= COORD_LIMIT,
            0 <= size.y <= COORD_LIMIT,
        ensures
            m.center.x == size.x as int / 2,
            m.center.y == size.y as int / 2,
            m.interval == (if size.x <= size.y {
                size.x as int
            } else {
                size.y as int
            }) / 4,
    {
        CircleFillMode { center: size.center(), interval: div_floor(size.smaller(), 4) }
    }

    /// Gets the fill for this character's position.
    pub fn sample(&self, _level: i64, pos: Vector) -> (r: i64)
        requires
            self.wf(),
            pos.in_range(),
        ensures
            r == circle_fill_spec(self.center, self.interval, pos),
            0 <= r < UNIT,
    {
        let dist = pos.sub(self.center).len();
        let ring = mod_euclid(dist, self.interval);
        proof {
            crate::math::lemma_scale_index_bound(ring as int, UNIT as int, self.interval as int);
            assert((ring as int) * (UNIT as int) == (UNIT as int) * (ring as int))
                by (nonlinear_arith);
        }
        div_floor(ring * UNIT, self.interval)
    }
}

} // verus!
