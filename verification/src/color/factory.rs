//! The wiring from a color choice to its sampler.

use vstd::prelude::*;
use crate::chooser::select;
use crate::color::{Color, SimpleColorSampler};

verus! {

/// All color choices of the animation.
#[derive(Copy, Clone, PartialEq, Eq, Structural, Debug)]
pub enum ColorEnum {
    Red,
    Green,
    Blue,
    LightRed,
    LightGreen,
    LightBlue,
    White,
    Rainbow,
}

/// The colors of each choice, darkest to brightest.
pub open spec fn color_seq(colors: ColorEnum) -> Seq<Color> {
    match colors {
        ColorEnum::Red => seq![Color::Yellow, Color::DarkYellow, Color::Red],
        ColorEnum::Green => seq![Color::Cyan, Color::DarkGreen, Color::Green],
        ColorEnum::Blue => seq![Color::Magenta, Color::DarkBlue, Color::Blue],
        ColorEnum::LightRed => seq![Color::White, Color::Yellow, Color::Red],
        ColorEnum::LightGreen => seq![Color::White, Color::Cyan, Color::Green],
        ColorEnum::LightBlue => seq![Color::White, Color::Blue, Color::Magenta],
        ColorEnum::White => seq![Color::Black, Color::Grey, Color::White],
        ColorEnum::Rainbow => seq![
            Color::Magenta,
            Color::Blue,
            Color::Green,
            Color::Yellow,
            Color::Red,
        ],
    }
}

/// The color choices in their declared order, the fallback when no
/// options are given.
pub open spec fn default_colors() -> Seq<ColorEnum> {
    seq![
        ColorEnum::Red,
        ColorEnum::Green,
        ColorEnum::Blue,
        ColorEnum::LightRed,
        ColorEnum::LightGreen,
        ColorEnum::LightBlue,
        ColorEnum::White,
        ColorEnum::Rainbow,
    ]
}

/// Creates the sampler for a color choice.
pub struct SimpleColorSamplerFactory;

impl SimpleColorSamplerFactory {
    /// Creates a new factory.
    pub fn new() -> (f: SimpleColorSamplerFactory) {
        SimpleColorSamplerFactory
    }

    /// Creates the sampler of the requested color choice.
    pub fn create(&self, colors: ColorEnum) -> (s: SimpleColorSampler)
        ensures
            s@ == color_seq(colors),
            s.wf(),
    {
        let s = match colors {
            ColorEnum::Red => SimpleColorSampler::new(
                vec![Color::Yellow, Color::DarkYellow, Color::Red],
            ),
            ColorEnum::Green => SimpleColorSampler::new(
                vec![Color::Cyan, Color::DarkGreen, Color::Green],
            ),
            ColorEnum::Blue => SimpleColorSampler::new(
                vec![Color::Magenta, Color::DarkBlue, Color::Blue],
            ),
            ColorEnum::LightRed => SimpleColorSampler::new(
                vec![Color::White, Color::Yellow, Color::Red],
            ),
            ColorEnum::LightGreen => SimpleColorSampler::new(
                vec![Color::White, Color::Cyan, Color::Green],
            ),
            ColorEnum::LightBlue => SimpleColorSampler::new(
                vec![Color::White, Color::Blue, Color::Magenta],
            ),
            ColorEnum::White => SimpleColorSampler::new(
                vec![Color::Black, Color::Grey, Color::White],
            ),
            ColorEnum::Rainbow => SimpleColorSampler::new(
                vec![Color::Magenta, Color::Blue, Color::Green, Color::Yellow, Color::Red],
            ),
        };
        proof {
            assert(s@ =~= color_seq(colors));
        }
        s
    }

    /// Chooses a color: the pick, wrapped around the number of options,
    /// points into the given options, or into all choices when none are
    /// given.
    pub fn pick(&self, options: Vec<ColorEnum>, pick: usize) -> (r: ColorEnum)
        ensures
            r == (if options@.len() > 0 {
                options@[pick as int % options@.len() as int]
            } else {
                default_colors()[pick as int % 8]
            }),
    {
        if options.len() > 0 {
            select(options, pick)
        } else {
            let defaults = vec![
                ColorEnum::Red,
                ColorEnum::Green,
                ColorEnum::Blue,
                ColorEnum::LightRed,
                ColorEnum::LightGreen,
                ColorEnum::LightBlue,
                ColorEnum::White,
                ColorEnum::Rainbow,
            ];
            proof {
                assert(defaults@ =~= default_colors());
            }
            select(defaults, pick)
        }
    }
}

} // verus!
