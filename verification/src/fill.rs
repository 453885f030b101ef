//! Fill modes: how the color of a drawn character is chosen from its
//! level and position.

mod circle;
mod factory;
mod level;
mod stripes;

pub use circle::{circle_fill_spec, CircleFillMode};
pub use factory::{default_fill_modes, fill_create_spec, FillModeEnum, SimpleFillModeFactory};
pub use level::LevelFillMode;
pub use stripes::{stripes_fill_spec, StripesFillMode};

use vstd::prelude::*;
use crate::math::UNIT;
use crate::vec::Vector;

verus! {

/// A fill mode, choosing the color level of a drawn character.
#[derive(Copy, Clone, PartialEq, Eq, Structural, Debug)]
pub enum FillMode {
    /// Rings of a circle.
    Circle(CircleFillMode),
    /// The character's own level.
    Level(LevelFillMode),
    /// Diagonal stripes.
    Stripes(StripesFillMode),
}

/// The fill each mode produces.
pub open spec fn fill_sample_spec(mode: FillMode, level: i64, pos: Vector) -> int {
    match mode {
        FillMode::Circle(m) => circle_fill_spec(m.center, m.interval, pos),
        FillMode::Level(m) => level as int,
        FillMode::Stripes(m) => stripes_fill_spec(m.interval, pos),
    }
}

impl FillMode {
    /// The contained mode is well formed.
    pub open spec fn wf(&self) -> bool {
        match *self {
            FillMode::Circle(m) => m.wf(),
            FillMode::Level(m) => true,
            FillMode::Stripes(m) => m.wf(),
        }
    }

    /// Gets the fill for this character.
    pub fn sample(&self, level: i64, pos: Vector) -> (r: i64)
        requires
            self.wf(),
            pos.in_range(),
        ensures
            r == fill_sample_spec(*self, level, pos),
    {
        match self {
            FillMode::Circle(m) => m.sample(level, pos),
            FillMode::Level(m) => m.sample(level, pos),
            FillMode::Stripes(m) => m.sample(level, pos),
        }
    }
}

} // verus!
