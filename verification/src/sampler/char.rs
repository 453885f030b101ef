//! Cyclic conversion of a level to a glyph.

use vstd::prelude::*;
use vstd::arithmetic::div_mod::lemma_div_is_ordered;
use vstd::string::StrSliceExecFns;
use crate::convert::cyclic_index_spec;
use crate::math::{div_floor_wide, mod_euclid_wide, UNIT};

verus! {

/// Converts a level to a glyph, cycling through the chars for any input.
pub struct CharConverterImpl {
    chars: Vec<char>,
}

impl View for CharConverterImpl {
    type V = Seq<char>;

    /// The chars used for mapping.
    closed spec fn view(&self) -> Seq<char> {
        self.chars@
    }
}

impl CharConverterImpl {
    /// The converter holds at least one char, and few enough to scale.
    pub open spec fn wf(&self) -> bool {
        0 < self@.len() <= 1_000_000
    }

    /// Creates a converter over the chars of the given string.
    pub fn new(chars: String) -> (c: CharConverterImpl)
        ensures
            c@ == chars@,
    {
        let n = chars.as_str().unicode_len();
        let mut v: Vec<char> = Vec::new();
        let mut i: usize = 0;
        while i < n
            invariant
                i <= n,
                n == chars@.len(),
                v@ == chars@.subrange(0, i as int),
            decreases n - i,
        {
            let g = chars.as_str().get_char(i);
            v.push(g);
            proof {
                assert(v@ =~= chars@.subrange(0, i + 1));
            }
            i += 1;
        }
        proof {
            assert(v@ =~= chars@);
        }
        CharConverterImpl { chars: v }
    }

    /// Converts the level, cycling through the chars for any input: the
    /// scaled index is wrapped by the Euclidean remainder.
    pub fn convert(&self, level: i64) -> (r: char)
        requires
            self.wf(),
        ensures
            r == self@[cyclic_index_spec(self@.len() as int, level as int)],
    {
        let len: i64 = self.chars.len() as i64;
        proof {
            assert(-0x8000_0000_0000_0000_0000_0000int <= (level as int) * (len as int)
                <= 0x8000_0000_0000_0000_0000_0000int) by (nonlinear_arith)
                requires
                    -0x8000_0000_0000_0000int <= (level as int) <= 0x7fff_ffff_ffff_ffffint,
                    0 < (len as int) <= 1_000_000int,
            ;
        }
        let product: i128 = level as i128 * len as i128;
        proof {
            lemma_div_is_ordered(
                -0x8000_0000_0000_0000_0000_0000int,
                product as int,
                UNIT as int,
            );
        }
        let scaled: i128 = div_floor_wide(product, UNIT as i128);
        let index: i128 = mod_euclid_wide(scaled, len as i128);
        self.chars[index as usize]
    }
}

} // verus!
