//! A sampler that picks a character of a given brightness.

use vstd::prelude::*;
use vstd::string::StrSliceExecFns;
use crate::math::{div_floor, lemma_scale_index_bound, UNIT};

verus! {

/// Picks a character by brightness from an ordered set.
pub struct SimpleCharSampler {
    chars: Vec<char>,
}

impl View for SimpleCharSampler {
    type V = Seq<char>;

    /// The characters, ordered by brightness.
    closed spec fn view(&self) -> Seq<char> {
        self.chars@
    }
}

impl SimpleCharSampler {
    /// The sampler holds at least one char, and few enough to scale.
    pub open spec fn wf(&self) -> bool {
        0 < self@.len() <= 1_000_000
    }

    /// Creates a sampler over the chars of the given string, ordered by
    /// brightness.
    pub fn new(chars: String) -> (s: SimpleCharSampler)
        ensures
            s@ == chars@,
    {
        let n = chars.as_str().unicode_len();
        let mut v: Vec<char> = Vec::new();
        let mut i: usize = 0;
        while i < n
            invariant
                i <= n,
                n == chars@.len(),
                v@ == chars@.subrange(0, i as int),
            decreases n - i,
        {
            let g = chars.as_str().get_char(i);
            v.push(g);
            proof {
                assert(v@ =~= chars@.subrange(0, i + 1));
            }
            i += 1;
        }
        proof {
            assert(v@ =~= chars@);
        }
        SimpleCharSampler { chars: v }
    }

    /// Gets the character for the given brightness level in `[0, UNIT)`.
    pub fn sample(&self, level: i64) -> (c: char)
        requires
            self.wf(),
            0 <= level < UNIT,
        ensures
            c == self@[(level * self@.len()) / (UNIT as int)],
    {
        let len: i64 = self.chars.len() as i64;
        proof {
            assert(0 <= (level as int) * (len as int) <= 1_000_000_000_000int)
                by (nonlinear_arith)
                requires
                    0 <= (level as int) < 1_000_000int,
                    0 < (len as int) <= 1_000_000int,
            ;
            lemma_scale_index_bound(level as int, len as int, UNIT as int);
        }
        let index = div_floor(level * len, UNIT);
        self.chars[index as usize]
    }
}

} // verus!
