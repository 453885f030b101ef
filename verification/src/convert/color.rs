//! Conversion of a color level to a terminal color.

use vstd::prelude::*;
use vstd::arithmetic::div_mod::lemma_div_is_ordered;
use crate::color::Color;
use crate::math::{div_floor_wide, mod_euclid_wide, UNIT};

verus! {

/// The palette index a color level selects: the scaled index, wrapped
/// cyclically by the Euclidean remainder so every level, including
/// negative ones and ones past a full unit, picks a color.
pub open spec fn cyclic_index_spec(len: int, level: int) -> int {
    ((level * len) / (UNIT as int)) % len
}

/// Converts a color level to a [`Color`].
pub struct ColorConverterImpl {
    colors: Vec<Color>,
}

impl View for ColorConverterImpl {
    type V = Seq<Color>;

    /// The colors used for mapping.
    closed spec fn view(&self) -> Seq<Color> {
        self.colors@
    }
}

impl ColorConverterImpl {
    /// The converter holds at least one color, and few enough to scale.
    pub open spec fn wf(&self) -> bool {
        0 < self@.len() <= 1_000_000
    }

    /// Creates a converter over the given colors.
    pub fn new(colors: Vec<Color>) -> (c: ColorConverterImpl)
        ensures
            c@ == colors@,
    {
        ColorConverterImpl { colors }
    }

    /// Converts the level, cycling through the palette for any input.
    pub fn convert(&self, level: i64) -> (r: Color)
        requires
            self.wf(),
        ensures
            r == self@[cyclic_index_spec(self@.len() as int, level as int)],
    {
        let len: i64 = self.colors.len() as i64;
        proof {
            assert(-0x8000_0000_0000_0000_0000_0000int <= (level as int) * (len as int)
                <= 0x8000_0000_0000_0000_0000_0000int) by (nonlinear_arith)
                requires
                    -0x8000_0000_0000_0000int <= (level as int) <= 0x7fff_ffff_ffff_ffffint,
                    0 < (len as int) <= 1_000_000int,
            ;
        }
        let product: i128 = level as i128 * len as i128;
        proof {
            lemma_div_is_ordered(
                -0x8000_0000_0000_0000_0000_0000int,
                product as int,
                UNIT as int,
            );
        }
        let scaled: i128 = div_floor_wide(product, UNIT as i128);
        let index: i128 = mod_euclid_wide(scaled, len as i128);
        self.colors[index as usize]
    }
}

} // verus!
