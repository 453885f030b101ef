//! Terminal foreground colors and a sampler that picks a color for a fill
//! level.

mod factory;

pub use factory::{color_seq, default_colors, ColorEnum, SimpleColorSamplerFactory};

use vstd::prelude::*;
use crate::math::{div_floor, lemma_scale_index_bound, UNIT};

verus! {

/// A terminal foreground color: the sixteen base colors of the terminal
/// palette, plus the terminal's configured default.
#[derive(Copy, Clone, PartialEq, Eq, Structural, Debug, Hash)]
pub enum Color {
    /// The terminal's default foreground color.
    Reset,
    Black,
    DarkGrey,
    Red,
    DarkRed,
    Green,
    DarkGreen,
    Yellow,
    DarkYellow,
    Blue,
    DarkBlue,
    Magenta,
    DarkMagenta,
    Cyan,
    DarkCyan,
    White,
    Grey,
}

/// A collection of colors ordered by brightness.
pub struct SimpleColorSampler {
    values: Vec<Color>,
}

impl View for SimpleColorSampler {
    type V = Seq<Color>;

    /// The colors of the sampler.
    closed spec fn view(&self) -> Seq<Color> {
        self.values@
    }
}

impl SimpleColorSampler {
    /// The sampler holds at least one color, and few enough to scale.
    pub open spec fn wf(&self) -> bool {
        0 < self@.len() <= 1_000_000
    }

    /// Creates a new sampler over the given colors.
    pub fn new(values: Vec<Color>) -> (s: SimpleColorSampler)
        ensures
            s@ == values@,
    {
        SimpleColorSampler { values }
    }

    /// Gets the color for the given fill level in `[0, UNIT)`.
    pub fn sample(&self, fill: i64) -> (c: Color)
        requires
            self.wf(),
            0 <= fill < UNIT,
        ensures
            c == self@[(fill * self@.len()) / (UNIT as int)],
    {
        let len: i64 = self.values.len() as i64;
        proof {
            assert(0 <= (fill as int) * (len as int) <= 1_000_000_000_000int)
                by (nonlinear_arith)
                requires
                    0 <= (fill as int) < 1_000_000int,
                    0 < (len as int) <= 1_000_000int,
            ;
            lemma_scale_index_bound(fill as int, len as int, UNIT as int);
        }
        let index = div_floor(fill * len, UNIT);
        self.values[index as usize]
    }
}

} // verus!
