//! Conversion of a glyph level to a per-cell drawing instruction.

use vstd::prelude::*;
use vstd::string::StrSliceExecFns;
use crate::math::{div_floor, lemma_scale_index_bound, UNIT};

verus! {

/// A sample for a terminal cell.
#[derive(Copy, Clone, PartialEq, Eq, Structural, Debug)]
pub enum CharSample {
    /// Keep the char.
    Keep,
    /// Override the char.
    Draw(char),
    /// Clear the char.
    Clear,
}

/// What a glyph level converts to: levels below zero clear the cell,
/// levels in `[0, UNIT)` pick a glyph by brightness, and levels of at
/// least `UNIT` keep the cell untouched.
pub open spec fn char_convert_spec(chars: Seq<char>, level: int) -> CharSample {
    if level < 0 {
        CharSample::Clear
    } else if level < UNIT {
        CharSample::Draw(chars[(level * chars.len()) / (UNIT as int)])
    } else {
        CharSample::Keep
    }
}

/// Converts a glyph level to a [`CharSample`].
pub struct CharConverterImpl {
    chars: Vec<char>,
}

impl View for CharConverterImpl {
    type V = Seq<char>;

    /// The chars used for mapping, ordered by brightness.
    closed spec fn view(&self) -> Seq<char> {
        self.chars@
    }
}

impl CharConverterImpl {
    /// The converter holds at least one char, and few enough to scale.
    pub open spec fn wf(&self) -> bool {
        0 < self@.len() <= 1_000_000
    }

    /// Creates a converter over the chars of the given string.
    pub fn new(chars: String) -> (c: CharConverterImpl)
        ensures
            c@ == chars@,
    {
        let n = chars.as_str().unicode_len();
        let mut v: Vec<char> = Vec::new();
        let mut i: usize = 0;
        while i < n
            invariant
                i <= n,
                n == chars@.len(),
                v@ == chars@.subrange(0, i as int),
            decreases n - i,
        {
            let g = chars.as_str().get_char(i);
            v.push(g);
            proof {
                assert(v@ =~= chars@.subrange(0, i + 1));
            }
            i += 1;
        }
        proof {
            assert(v@ =~= chars@);
        }
        CharConverterImpl { chars: v }
    }

    /// Converts the level: negative levels clear, levels in `[0, UNIT)`
    /// draw the glyph at the scaled index, levels of one or more keep.
    pub fn convert(&self, level: i64) -> (r: CharSample)
        requires
            self.wf(),
        ensures
            r == char_convert_spec(self@, level as int),
    {
        if level < 0 {
            CharSample::Clear
        } else if level < UNIT {
            let len: i64 = self.chars.len() as i64;
            proof {
                assert(0 <= (level as int) * (len as int) <= 1_000_000_000_000int)
                    by (nonlinear_arith)
                    requires
                        0 <= (level as int) < 1_000_000int,
                        0 < (len as int) <= 1_000_000int,
                ;
                lemma_scale_index_bound(level as int, len as int, UNIT as int);
            }
            let index = div_floor(level * len, UNIT);
            CharSample::Draw(self.chars[index as usize])
        } else {
            CharSample::Keep
        }
    }
}

} // verus!
