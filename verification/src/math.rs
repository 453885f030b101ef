//! Fixed-point arithmetic for the animation model.
//!
//! Levels, animation steps and field coordinates are `i64` values in
//! micro-units: [`UNIT`] stands for the value `1.0` of the continuous model.
//! Saturating operations mirror how unbounded growth of a level is absorbed
//! instead of wrapping; in every range the renderer cares about they behave
//! as the exact operations.

use vstd::prelude::*;
use vstd::arithmetic::div_mod::{
    lemma_div_is_ordered, lemma_fundamental_div_mod, lemma_fundamental_div_mod_converse,
};
use vstd::arithmetic::mul::lemma_mul_inequality;

verus! {

/// The fixed-point representation of `1.0`: one million micro-units.
pub const UNIT: i64 = 1_000_000;

/// `x` clamped to the `i64` range.
pub open spec fn sat64(x: int) -> int {
    if x < i64::MIN {
        i64::MIN as int
    } else if x > i64::MAX {
        i64::MAX as int
    } else {
        x
    }
}

/// Saturating addition.
pub fn sat_add(a: i64, b: i64) -> (r: i64)
    ensures
        r == sat64(a + b),
{
    let s: i128 = a as i128 + b as i128;
    if s < i64::MIN as i128 {
        i64::MIN
    } else if s > i64::MAX as i128 {
        i64::MAX
    } else {
        s as i64
    }
}

/// Saturating subtraction.
pub fn sat_sub(a: i64, b: i64) -> (r: i64)
    ensures
        r == sat64(a - b),
{
    let s: i128 = a as i128 - b as i128;
    if s < i64::MIN as i128 {
        i64::MIN
    } else if s > i64::MAX as i128 {
        i64::MAX
    } else {
        s as i64
    }
}

/// Saturating multiplication.
pub fn sat_mul(a: i64, b: i64) -> (r: i64)
    ensures
        r == sat64(a * b),
{
    proof {
        assert(-0x4000_0000_0000_0000_0000_0000_0000_0000int <= a as int * b as int
            <= 0x4000_0000_0000_0000_0000_0000_0000_0000int) by (nonlinear_arith)
            requires
                -0x8000_0000_0000_0000int <= a as int <= 0x7fff_ffff_ffff_ffffint,
                -0x8000_0000_0000_0000int <= b as int <= 0x7fff_ffff_ffff_ffffint,
        ;
    }
    let s: i128 = a as i128 * b as i128;
    if s < i64::MIN as i128 {
        i64::MIN
    } else if s > i64::MAX as i128 {
        i64::MAX
    } else {
        s as i64
    }
}

/// Floor division by a positive divisor, agreeing with the Euclidean
/// division of specifications.
pub fn div_floor(a: i64, b: i64) -> (q: i64)
    requires
        b > 0,
        i64::MIN < a,
    ensures
        q == a as int / b as int,
{
    if a >= 0 {
        (a as u64 / b as u64) as i64
    } else {
        let m: u64 = (-a) as u64;
        let bu: u64 = b as u64;
        let q0: u64 = m / bu;
        let r0: u64 = m % bu;
        proof {
            lemma_fundamental_div_mod(m as int, b as int);
            assert((-(q0 as int)) * (b as int) == -((b as int) * (q0 as int))
                && (-(q0 as int) - 1) * (b as int) == -((b as int) * (q0 as int)) - (b as int))
                by (nonlinear_arith);
        }
        if r0 == 0 {
            proof {
                lemma_fundamental_div_mod_converse(a as int, b as int, -(q0 as int), 0);
            }
            -(q0 as i64)
        } else {
            proof {
                lemma_fundamental_div_mod_converse(
                    a as int,
                    b as int,
                    -(q0 as int) - 1,
                    b - r0,
                );
            }
            -(q0 as i64) - 1
        }
    }
}

/// Euclidean remainder for a positive divisor: the result is in `[0, b)`.
pub fn mod_euclid(a: i64, b: i64) -> (r: i64)
    requires
        b > 0,
        i64::MIN < a,
    ensures
        r == a as int % b as int,
        0 <= r < b,
{
    if a >= 0 {
        (a as u64 % b as u64) as i64
    } else {
        let m: u64 = (-a) as u64;
        let bu: u64 = b as u64;
        let q0: u64 = m / bu;
        let r0: u64 = m % bu;
        proof {
            lemma_fundamental_div_mod(m as int, b as int);
            assert((-(q0 as int)) * (b as int) == -((b as int) * (q0 as int))
                && (-(q0 as int) - 1) * (b as int) == -((b as int) * (q0 as int)) - (b as int))
                by (nonlinear_arith);
        }
        if r0 == 0 {
            proof {
                lemma_fundamental_div_mod_converse(a as int, b as int, -(q0 as int), 0);
            }
            0
        } else {
            proof {
                lemma_fundamental_div_mod_converse(
                    a as int,
                    b as int,
                    -(q0 as int) - 1,
                    b - r0,
                );
            }
            b - (r0 as i64)
        }
    }
}

/// Floor division of a wide value by a positive divisor, agreeing with the
/// Euclidean division of specifications.
pub fn div_floor_wide(a: i128, b: i128) -> (q: i128)
    requires
        b > 0,
        i128::MIN < a,
    ensures
        q == a as int / b as int,
{
    if a >= 0 {
        (a as u128 / b as u128) as i128
    } else {
        let m: u128 = (-a) as u128;
        let bu: u128 = b as u128;
        let q0: u128 = m / bu;
        let r0: u128 = m % bu;
        proof {
            lemma_fundamental_div_mod(m as int, b as int);
            assert((-(q0 as int)) * (b as int) == -((b as int) * (q0 as int))
                && (-(q0 as int) - 1) * (b as int) == -((b as int) * (q0 as int)) - (b as int))
                by (nonlinear_arith);
        }
        if r0 == 0 {
            proof {
                lemma_fundamental_div_mod_converse(a as int, b as int, -(q0 as int), 0);
            }
            -(q0 as i128)
        } else {
            proof {
                lemma_fundamental_div_mod_converse(
                    a as int,
                    b as int,
                    -(q0 as int) - 1,
                    b - r0,
                );
            }
            -(q0 as i128) - 1
        }
    }
}

/// Euclidean remainder of a wide value for a positive divisor: the result
/// is in `[0, b)`.
pub fn mod_euclid_wide(a: i128, b: i128) -> (r: i128)
    requires
        b > 0,
        i128::MIN < a,
    ensures
        r == a as int % b as int,
        0 <= r < b,
{
    if a >= 0 {
        (a as u128 % b as u128) as i128
    } else {
        let m: u128 = (-a) as u128;
        let bu: u128 = b as u128;
        let q0: u128 = m / bu;
        let r0: u128 = m % bu;
        proof {
            lemma_fundamental_div_mod(m as int, b as int);
            assert((-(q0 as int)) * (b as int) == -((b as int) * (q0 as int))
                && (-(q0 as int) - 1) * (b as int) == -((b as int) * (q0 as int)) - (b as int))
                by (nonlinear_arith);
        }
        if r0 == 0 {
            proof {
                lemma_fundamental_div_mod_converse(a as int, b as int, -(q0 as int), 0);
            }
            0
        } else {
            proof {
                lemma_fundamental_div_mod_converse(
                    a as int,
                    b as int,
                    -(q0 as int) - 1,
                    b - r0,
                );
            }
            b - (r0 as i128)
        }
    }
}

/// The animation progress after `elapsed` of `duration` time units, in
/// micro-units: the floor of `elapsed / duration` scaled by [`UNIT`].
pub fn progress(elapsed: u64, duration: u64) -> (s: i64)
    requires
        elapsed < duration,
    ensures
        s == (elapsed as int * UNIT) / (duration as int),
        0 <= s < UNIT,
{
    proof {
        lemma_scale_index_bound(elapsed as int, UNIT as int, duration as int);
        assert((elapsed as int) * (UNIT as int) == (UNIT as int) * (elapsed as int))
            by (nonlinear_arith);
    }
    ((elapsed as u128 * UNIT as u128) / duration as u128) as i64
}

/// Scaling a fraction `a / u` of `n` entries gives an index in `[0, n)`.
pub proof fn lemma_scale_index_bound(a: int, n: int, u: int)
    requires
        0 <= a < u,
        0 < n,
        0 < u,
    ensures
        0 <= (a * n) / u < n,
{
    lemma_mul_inequality(0, a, n);
    lemma_mul_inequality(a, u - 1, n);
    assert((u - 1) * n == u * n - n && (n - 1) * u + (u - 1) == u * n - 1)
        by (nonlinear_arith);
    lemma_div_is_ordered(0, a * n, u);
    lemma_div_is_ordered(a * n, u * n - 1, u);
    lemma_fundamental_div_mod_converse(u * n - 1, u, n - 1, u - 1);
    assert(0int / u == 0) by {
        lemma_fundamental_div_mod_converse(0, u, 0, 0);
    }
}

/// The integer square root: the greatest `r` with `r * r <= v`.
pub open spec fn isqrt_spec(v: int, r: int) -> bool {
    &&& 0 <= r
    &&& r * r <= v
    &&& v < (r + 1) * (r + 1)
}

/// Computes the integer square root by bisection.
pub fn isqrt(v: u128) -> (r: u64)
    ensures
        isqrt_spec(v as int, r as int),
{
    let mut lo: u128 = 0;
    let mut hi: u128 = 1u128 << 64;
    proof {
        assert((1u128 << 64) == 0x1_0000_0000_0000_0000u128) by (bit_vector);
        assert((0x1_0000_0000_0000_0000int) * (0x1_0000_0000_0000_0000int) > u128::MAX)
            by (nonlinear_arith);
    }
    while hi - lo > 1
        invariant
            0 <= lo < hi <= 0x1_0000_0000_0000_0000u128,
            lo * lo <= v,
            v < hi * hi,
        decreases hi - lo,
    {
        let mid: u128 = lo + (hi - lo) / 2;
        proof {
            lemma_mul_inequality(mid as int, 0xffff_ffff_ffff_ffffint, mid as int);
            lemma_mul_inequality(
                0xffff_ffff_ffff_ffffint,
                0xffff_ffff_ffff_ffffint,
                0xffff_ffff_ffff_ffffint,
            );
            assert((0xffff_ffff_ffff_ffffint) * (0xffff_ffff_ffff_ffffint) <= u128::MAX)
                by (nonlinear_arith);
        }
        if mid * mid <= v {
            lo = mid;
        } else {
            hi = mid;
        }
    }
    lo as u64
}

} // verus!
