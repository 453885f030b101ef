//! A two dimensional vector in fixed-point micro-units.

use vstd::prelude::*;
use vstd::arithmetic::div_mod::{lemma_div_is_ordered, lemma_div_multiples_vanish};
use vstd::arithmetic::mul::lemma_mul_inequality;
use crate::math::{div_floor, isqrt, isqrt_spec, UNIT};

verus! {

/// The largest coordinate magnitude the geometry accepts, with generous
/// headroom over the largest value [`Vector::from_terminal`] can produce.
pub const COORD_LIMIT: i64 = 0x100_0000_0000;

/// Half a turn in micro-turns: the angle `pi` of the continuous model.
pub const HALF_TURN: i64 = 500_000;

/// A quarter turn in micro-turns: the angle `pi / 2` of the continuous model.
pub const QUARTER_TURN: i64 = 250_000;

/// A vector with a x-axis and y-axis, both in micro-units.
#[derive(Copy, Clone, PartialEq, Eq, Structural, Debug)]
pub struct Vector {
    pub x: i64,
    pub y: i64,
}

/// The magnitude of `x`.
pub open spec fn abs_i(x: int) -> int {
    if x < 0 {
        -x
    } else {
        x
    }
}

/// The floor of the square root of `v`, as a specification value.
pub open spec fn sqrt_floor(v: int) -> int {
    choose|r: int| isqrt_spec(v, r)
}

/// The integer square root is unique, so any root witness determines
/// [`sqrt_floor`].
pub proof fn lemma_sqrt_floor_unique(v: int, r: int)
    requires
        isqrt_spec(v, r),
    ensures
        sqrt_floor(v) == r,
{
    assert(exists|q: int| isqrt_spec(v, q)) by {
        assert(isqrt_spec(v, r));
    }
    let q = choose|q: int| isqrt_spec(v, q);
    if q < r {
        lemma_mul_inequality(q + 1, r, q + 1);
        lemma_mul_inequality(q + 1, r, r);
    }
    if r < q {
        lemma_mul_inequality(r + 1, q, r + 1);
        lemma_mul_inequality(r + 1, q, q);
    }
}

/// The length of a vector: the square root of the sum of the squared axes.
pub open spec fn len_spec(v: Vector) -> int {
    sqrt_floor(v.x * v.x + v.y * v.y)
}

/// The arctangent of `t / UNIT` in micro-turns, for `t` in `[0, UNIT]`:
/// a quadratic approximation that is exact at `0` and at `UNIT`.
pub open spec fn atan_unit_spec(t: int) -> int {
    t / 8 + (43_447 * ((t * (UNIT - t)) / (UNIT as int))) / (UNIT as int)
}

/// The angle of the vector `(x, y)` in micro-turns, in `[-HALF_TURN, HALF_TURN]`,
/// measured like the two-argument arctangent: zero along the positive x-axis,
/// a quarter turn along the positive y-axis, half a turn along the negative
/// x-axis.
pub open spec fn angle_spec(x: int, y: int) -> int {
    if x == 0 && y == 0 {
        0
    } else if abs_i(y) <= abs_i(x) {
        let base = atan_unit_spec((abs_i(y) * UNIT) / abs_i(x));
        if x > 0 {
            if y >= 0 {
                base
            } else {
                -base
            }
        } else {
            if y >= 0 {
                HALF_TURN - base
            } else {
                base - HALF_TURN
            }
        }
    } else {
        let base = atan_unit_spec((abs_i(x) * UNIT) / abs_i(y));
        if y > 0 {
            if x >= 0 {
                QUARTER_TURN - base
            } else {
                QUARTER_TURN + base
            }
        } else {
            if x >= 0 {
                base - QUARTER_TURN
            } else {
                -QUARTER_TURN - base
            }
        }
    }
}

/// Computes [`atan_unit_spec`] and bounds it by a quarter turn.
fn atan_unit(t: i64) -> (r: i64)
    requires
        0 <= t <= UNIT,
    ensures
        r == atan_unit_spec(t as int),
        0 <= r < QUARTER_TURN,
{
    proof {
        lemma_mul_inequality(t as int, UNIT as int, (UNIT - t) as int);
    }
    let spread: i64 = div_floor(t * (UNIT - t), UNIT);
    proof {
        lemma_div_is_ordered(t as int * (UNIT - t) as int, UNIT as int * (UNIT - t) as int, UNIT as int);
        lemma_div_multiples_vanish((UNIT - t) as int, UNIT as int);
    }
    let curve: i64 = div_floor(43_447 * spread, UNIT);
    proof {
        lemma_div_is_ordered(43_447 * spread as int, 43_447 * 1_000_000int, UNIT as int);
    }
    div_floor(t, 8) + curve
}

impl Vector {
    /// All coordinates within [`COORD_LIMIT`].
    pub open spec fn in_range(&self) -> bool {
        &&& -COORD_LIMIT <= self.x <= COORD_LIMIT
        &&& -COORD_LIMIT <= self.y <= COORD_LIMIT
    }

    /// Creates a new vector.
    pub fn new(x: i64, y: i64) -> (v: Vector)
        ensures
            v.x == x,
            v.y == y,
    {
        Vector { x, y }
    }

    /// Creates a new vector from terminal coordinates, doubling the row axis
    /// to compensate for the glyph aspect ratio.
    pub fn from_terminal(x: u16, y: u16) -> (v: Vector)
        ensures
            v.x == x as int * UNIT,
            v.y == y as int * 2 * UNIT,
            v.in_range(),
            v.x >= 0,
            v.y >= 0,
    {
        Vector { x: x as i64 * UNIT, y: y as i64 * 2 * UNIT }
    }

    /// The componentwise difference of two vectors.
    pub fn sub(self, other: Vector) -> (v: Vector)
        requires
            self.in_range(),
            other.in_range(),
        ensures
            v.x == self.x - other.x,
            v.y == self.y - other.y,
    {
        Vector { x: self.x - other.x, y: self.y - other.y }
    }

    /// Returns the length.
    pub fn len(&self) -> (r: i64)
        requires
            -2 * COORD_LIMIT <= self.x <= 2 * COORD_LIMIT,
            -2 * COORD_LIMIT <= self.y <= 2 * COORD_LIMIT,
        ensures
            r == len_spec(*self),
            isqrt_spec(self.x * self.x + self.y * self.y, r as int),
            0 <= r <= 4 * COORD_LIMIT,
    {
        proof {
            assert(self.x as int * self.x as int <= 4 * COORD_LIMIT as int * COORD_LIMIT as int
                && self.x as int * self.x as int >= 0
                && self.y as int * self.y as int <= 4 * COORD_LIMIT as int * COORD_LIMIT as int
                && self.y as int * self.y as int >= 0) by (nonlinear_arith)
                requires
                    -2 * COORD_LIMIT as int <= self.x as int <= 2 * COORD_LIMIT as int,
                    -2 * COORD_LIMIT as int <= self.y as int <= 2 * COORD_LIMIT as int,
            ;
        }
        let squares: i128 = self.x as i128 * self.x as i128 + self.y as i128 * self.y as i128;
        let root: u64 = isqrt(squares as u128);
        proof {
            lemma_sqrt_floor_unique(squares as int, root as int);
            let bound = 4 * (COORD_LIMIT as int);
            if root as int > bound {
                lemma_mul_inequality(bound + 1, root as int, bound + 1);
                lemma_mul_inequality(bound + 1, root as int, root as int);
                assert(8 * (COORD_LIMIT as int) * (COORD_LIMIT as int) < (bound + 1) * (bound + 1))
                    by (nonlinear_arith)
                    requires
                        bound == 4 * (COORD_LIMIT as int),
                ;
            }
        }
        root as i64
    }

    /// Returns a vector with absolute values.
    pub fn abs(&self) -> (v: Vector)
        requires
            i64::MIN < self.x,
            i64::MIN < self.y,
        ensures
            v.x == abs_i(self.x as int),
            v.y == abs_i(self.y as int),
    {
        Vector {
            x: if self.x < 0 {
                -self.x
            } else {
                self.x
            },
            y: if self.y < 0 {
                -self.y
            } else {
                self.y
            },
        }
    }

    /// Returns the sum of all axes.
    pub fn sum(&self) -> (r: i64)
        requires
            -2 * COORD_LIMIT <= self.x <= 2 * COORD_LIMIT,
            -2 * COORD_LIMIT <= self.y <= 2 * COORD_LIMIT,
        ensures
            r == self.x + self.y,
    {
        self.x + self.y
    }

    /// Returns the center: each axis halved.
    pub fn center(&self) -> (v: Vector)
        requires
            0 <= self.x,
            0 <= self.y,
        ensures
            v.x == self.x as int / 2,
            v.y == self.y as int / 2,
            0 <= v.x <= self.x,
            0 <= v.y <= self.y,
    {
        Vector { x: div_floor(self.x, 2), y: div_floor(self.y, 2) }
    }

    /// Returns the angle in micro-turns.
    pub fn angle(&self) -> (r: i64)
        requires
            -2 * COORD_LIMIT <= self.x <= 2 * COORD_LIMIT,
            -2 * COORD_LIMIT <= self.y <= 2 * COORD_LIMIT,
        ensures
            r == angle_spec(self.x as int, self.y as int),
            -HALF_TURN <= r <= HALF_TURN,
    {
        let ax: i64 = if self.x < 0 {
            -self.x
        } else {
            self.x
        };
        let ay: i64 = if self.y < 0 {
            -self.y
        } else {
            self.y
        };
        if ax == 0 && ay == 0 {
            0
        } else if ay <= ax {
            proof {
                lemma_mul_inequality(ay as int, ax as int, UNIT as int);
                lemma_div_is_ordered(ay as int * UNIT as int, ax as int * UNIT as int, ax as int);
                lemma_div_multiples_vanish(UNIT as int, ax as int);
            }
            let base = atan_unit(div_floor(ay * UNIT, ax));
            if self.x > 0 {
                if self.y >= 0 {
                    base
                } else {
                    -base
                }
            } else {
                if self.y >= 0 {
                    HALF_TURN - base
                } else {
                    base - HALF_TURN
                }
            }
        } else {
            proof {
                lemma_mul_inequality(ax as int, ay as int, UNIT as int);
                lemma_div_is_ordered(ax as int * UNIT as int, ay as int * UNIT as int, ay as int);
                lemma_div_multiples_vanish(UNIT as int, ay as int);
            }
            let base = atan_unit(div_floor(ax * UNIT, ay));
            if self.y > 0 {
                if self.x >= 0 {
                    QUARTER_TURN - base
                } else {
                    QUARTER_TURN + base
                }
            } else {
                if self.x >= 0 {
                    base - QUARTER_TURN
                } else {
                    -QUARTER_TURN - base
                }
            }
        }
    }

    /// Returns a vector with x and y swapped.
    pub fn swap(&self) -> (v: Vector)
        ensures
            v.x == self.y,
            v.y == self.x,
    {
        Vector { x: self.y, y: self.x }
    }

    /// Returns the smaller axis.
    pub fn smaller(&self) -> (r: i64)
        ensures
            r == if self.x <= self.y {
                self.x as int
            } else {
                self.y as int
            },
    {
        if self.x <= self.y {
            self.x
        } else {
            self.y
        }
    }
}

impl Default for Vector {
    /// The origin.
    fn default() -> (v: Vector)
        ensures
            v.x == 0,
            v.y == 0,
    {
        Vector { x: 0, y: 0 }
    }
}

} // verus!
