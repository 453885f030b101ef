//! The two-stage conversion of continuous levels into discrete glyph and
//! color output.

mod char;
mod color;
mod level;

pub use crate::convert::char::{char_convert_spec, CharConverterImpl, CharSample};
pub use crate::convert::color::{cyclic_index_spec, ColorConverterImpl};
pub use crate::convert::level::{level_convert_spec, Level, LevelConverterImpl};

use vstd::prelude::*;
use crate::color::Color as TermColor;

verus! {

/// The pairing of a glyph converter and a color converter.
pub struct ConverterImpl {
    /// The glyph converter.
    pub char: CharConverterImpl,
    /// The color converter.
    pub color: ColorConverterImpl,
}

impl ConverterImpl {
    /// Both converters are well formed.
    pub open spec fn wf(&self) -> bool {
        self.char.wf() && self.color.wf()
    }

    /// Creates a new converter pair.
    pub fn new(char: CharConverterImpl, color: ColorConverterImpl) -> (c: ConverterImpl)
        ensures
            c.char == char,
            c.color == color,
    {
        ConverterImpl { char, color }
    }

    /// Converts a glyph level.
    pub fn char(&self, level: i64) -> (r: CharSample)
        requires
            self.wf(),
        ensures
            r == char_convert_spec(self.char@, level as int),
    {
        self.char.convert(level)
    }

    /// Converts a color level.
    pub fn color(&self, level: i64) -> (r: TermColor)
        requires
            self.wf(),
        ensures
            r == self.color@[cyclic_index_spec(self.color@.len() as int, level as int)],
    {
        self.color.convert(level)
    }
}

} // verus!
