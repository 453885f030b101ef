//! The wiring from a fill mode choice to its mode.

use vstd::prelude::*;
use crate::chooser::select;
use crate::fill::{CircleFillMode, FillMode, LevelFillMode, StripesFillMode};
use crate::vec::{Vector, COORD_LIMIT};

verus! {

/// All fill mode choices of the animation.
#[derive(Copy, Clone, PartialEq, Eq, Structural, Debug)]
pub enum FillModeEnum {
    Circle,
    Level,
    Stripe,
}

/// The fill mode choices in their declared order, the fallback when no
/// options are given.
pub open spec fn default_fill_modes() -> Seq<FillModeEnum> {
    seq![FillModeEnum::Circle, FillModeEnum::Level, FillModeEnum::Stripe]
}

/// The mode each choice creates for a grid of the given size.
pub open spec fn fill_create_spec(mode: FillModeEnum, size: Vector) -> FillMode {
    match mode {
        FillModeEnum::Circle => FillMode::Circle(
            CircleFillMode {
                center: Vector { x: (size.x as int / 2) as i64, y: (size.y as int / 2) as i64 },
                interval: ((if size.x <= size.y {
                    size.x as int
                } else {
                    size.y as int
                }) / 4) as i64,
            },
        ),
        FillModeEnum::Level => FillMode::Level(LevelFillMode),
        FillModeEnum::Stripe => FillMode::Stripes(
            StripesFillMode {
                interval: ((if size.x <= size.y {
                    size.x as int
                } else {
                    size.y as int
                }) / 4) as i64,
            },
        ),
    }
}

/// Creates fill modes for a grid.
pub struct SimpleFillModeFactory;

impl SimpleFillModeFactory {
    /// Creates a new factory.
    pub fn new() -> (f: SimpleFillModeFactory) {
        SimpleFillModeFactory
    }

    /// Creates the requested fill mode for a grid of the given size.
    pub fn create(&self, mode: FillModeEnum, size: Vector) -> (m: FillMode)
        requires
            0 <= size.x <= COORD_LIMIT,
            0 <= size.y <= COORD_LIMIT,
        ensures
            m == fill_create_spec(mode, size),
    {
        match mode {
            FillModeEnum::Circle => FillMode::Circle(CircleFillMode::new(size)),
            FillModeEnum::Level => FillMode::Level(LevelFillMode::new()),
            FillModeEnum::Stripe => FillMode::Stripes(StripesFillMode::new(size)),
        }
    }

    /// Chooses a fill mode: the pick, wrapped around the number of
    /// options, points into the given options, or into all choices when
    /// none are given.
    pub fn pick(&self, options: Vec<FillModeEnum>, pick: usize) -> (r: FillModeEnum)
        ensures
            r == (if options@.len() > 0 {
                options@[pick as int % options@.len() as int]
            } else {
                default_fill_modes()[pick as int % 3]
            }),
    {
        if options.len() > 0 {
            select(options, pick)
        } else {
            let defaults = vec![FillModeEnum::Circle, FillModeEnum::Level, FillModeEnum::Stripe];
            proof {
                assert(defaults@ =~= default_fill_modes());
            }
            select(defaults, pick)
        }
    }
}

} // verus!
