//! The frame renderer: builds the frame configuration, samples every grid
//! cell, converts the levels, and presents the surface.

use vstd::prelude::*;
use vstd::arithmetic::div_mod::lemma_fundamental_div_mod_converse;
use crate::color::Color;
use crate::convert::{char_convert_spec, cyclic_index_spec, CharSample, ConverterImpl};
use crate::error::Error;
use crate::math::UNIT;
use crate::pattern::{create_spec, sample_spec, Config, Pattern, SamplerFactoryImpl};
use crate::surface::{present_spec, Cell, Command, Surface};
use crate::vec::Vector;

verus! {

/// A renderer for an animation: something that renders one frame per
/// animation step. The abstract `steps` sequence records the steps
/// rendered so far, newest last; `outcomes` records, in the same order,
/// each render's result, errors included.
pub trait Renderer {
    /// The animation steps rendered so far. Implementations outside the
    /// library inherit an unspecified value and are trusted to record
    /// their calls faithfully.
    open spec fn steps(&self) -> Seq<i64> {
        arbitrary()
    }

    /// The result of each render so far.
    open spec fn outcomes(&self) -> Seq<Result<(), Error>> {
        arbitrary()
    }

    /// Renders the frame for the given step and flushes it.
    fn render(&mut self, step: i64) -> (r: Result<(), Error>)
        requires
            0 <= step <= UNIT,
        ensures
            final(self).steps() == old(self).steps().push(step),
            final(self).outcomes() == old(self).outcomes().push(r),
    ;
}

/// The instruction for the cell at `(x, y)`: the glyph level decides
/// whether to keep, draw or clear; only a drawn cell consults the color
/// field.
pub open spec fn cell_spec(
    charp: Pattern,
    colorp: Pattern,
    chars: Seq<char>,
    colors: Seq<Color>,
    x: int,
    y: int,
) -> Cell {
    let pos = Vector { x: (x * UNIT) as i64, y: (y * 2 * UNIT) as i64 };
    match char_convert_spec(chars, sample_spec(charp, pos)) {
        CharSample::Keep => Cell::Keep,
        CharSample::Draw(ch) => Cell::Draw {
            char: ch,
            color: colors[cyclic_index_spec(colors.len() as int, sample_spec(colorp, pos))],
        },
        CharSample::Clear => Cell::Draw { char: ' ', color: Color::Reset },
    }
}

/// The whole frame, in row-major order.
pub open spec fn frame_spec(
    charp: Pattern,
    colorp: Pattern,
    chars: Seq<char>,
    colors: Seq<Color>,
    w: int,
    h: int,
) -> Seq<Cell> {
    Seq::new((w * h) as nat, |i: int| cell_spec(charp, colorp, chars, colors, i % w, i / w))
}

/// The frame a renderer produces for a step: both pattern blueprints bound
/// to the frame configuration, sampled over the whole grid.
pub open spec fn render_frame_spec(r: RendererImpl, step: i64) -> Seq<Cell> {
    let w = r.surface.spec_width();
    let h = r.surface.spec_height();
    let config = Config {
        size: Vector { x: (w * UNIT) as i64, y: (h * 2 * UNIT) as i64 },
        step,
    };
    frame_spec(
        create_spec(r.sampler.char, config),
        create_spec(r.sampler.color, config),
        r.converter.char@,
        r.converter.color@,
        w,
        h,
    )
}

/// The implementation of [`Renderer`]'s frame computation: the sampler
/// factory, the converter pair, and the frame surface.
pub struct RendererImpl {
    /// The factory for the two pattern fields.
    pub sampler: SamplerFactoryImpl,
    /// The glyph and color converters.
    pub converter: ConverterImpl,
    /// The frame buffer.
    pub surface: Surface,
}

impl RendererImpl {
    /// All components are well formed and the grid is not degenerate.
    pub open spec fn wf(&self) -> bool {
        &&& self.sampler.wf()
        &&& self.converter.wf()
        &&& self.surface.wf()
        &&& 1 <= self.surface.spec_width()
        &&& 1 <= self.surface.spec_height()
    }

    /// Creates a new renderer.
    pub fn new(sampler: SamplerFactoryImpl, converter: ConverterImpl, surface: Surface) -> (r:
        RendererImpl)
        requires
            sampler.wf(),
            converter.wf(),
            surface.wf(),
            1 <= surface.spec_width(),
            1 <= surface.spec_height(),
        ensures
            r == (RendererImpl { sampler, converter, surface }),
            r.wf(),
    {
        RendererImpl { sampler, converter, surface }
    }

    /// Reallocates the frame buffer for a resized terminal grid.
    pub fn resize(&mut self, width: u16, height: u16)
        requires
            old(self).wf(),
            1 <= width,
            1 <= height,
        ensures
            final(self).wf(),
            final(self).sampler == old(self).sampler,
            final(self).converter == old(self).converter,
            final(self).surface.spec_width() == width,
            final(self).surface.spec_height() == height,
    {
        self.surface = Surface::new(width, height);
    }

    /// Renders the frame for the given step into the surface and returns
    /// the command stream that presents it.
    pub fn render(&mut self, step: i64) -> (cmds: Vec<Command>)
        requires
            old(self).wf(),
            0 <= step <= UNIT,
        ensures
            final(self).wf(),
            final(self).sampler == old(self).sampler,
            final(self).converter == old(self).converter,
            final(self).surface.spec_width() == old(self).surface.spec_width(),
            final(self).surface.spec_height() == old(self).surface.spec_height(),
            final(self).surface.cells() == render_frame_spec(*old(self), step),
            cmds@ == present_spec(
                render_frame_spec(*old(self), step),
                old(self).surface.spec_width(),
                old(self).surface.spec_height(),
            ),
    {
        let w = self.surface.width();
        let h = self.surface.height();
        proof {
            self.surface.lemma_dims();
        }
        let config = Config { size: Vector::from_terminal(w as u16, h as u16), step };
        let sampler = self.sampler.create(&config);
        self.surface.reset();
        let ghost frame = render_frame_spec(*old(self), step);
        proof {
            assert((w as int) * (h as int) == old(self).surface.cells().len());
        }
        let mut y: usize = 0;
        while y < h
            invariant
                y <= h,
                0 <= step <= UNIT,
                old(self).wf(),
                self.sampler == old(self).sampler,
                self.converter == old(self).converter,
                self.surface.wf(),
                w == self.surface.spec_width(),
                h == self.surface.spec_height(),
                w == old(self).surface.spec_width(),
                h == old(self).surface.spec_height(),
                1 <= w <= u16::MAX,
                1 <= h <= u16::MAX,
                self.surface.cells().len() == w * h,
                sampler.wf(),
                sampler.char == create_spec(
                    old(self).sampler.char,
                    Config {
                        size: Vector { x: (w * UNIT) as i64, y: (h * 2 * UNIT) as i64 },
                        step,
                    },
                ),
                sampler.color == create_spec(
                    old(self).sampler.color,
                    Config {
                        size: Vector { x: (w * UNIT) as i64, y: (h * 2 * UNIT) as i64 },
                        step,
                    },
                ),
                frame == render_frame_spec(*old(self), step),
                frame.len() == w * h,
                forall|i: int| 0 <= i < y * w ==> self.surface.cells()[i] == frame[i],
                forall|i: int|
                    y * w <= i < w * h ==> self.surface.cells()[i] == Cell::Keep,
            decreases h - y,
        {
            let mut x: usize = 0;
            proof {
                assert(0 <= y * w && y * w + w == (y + 1) * w && (y + 1) * w <= h * w
                    && h * w == w * h) by (nonlinear_arith)
                    requires
                        0 <= y as int,
                        (y as int) < (h as int),
                        0 <= w as int,
                ;
            }
            while x < w
                invariant
                    x <= w,
                    y < h,
                    0 <= step <= UNIT,
                    old(self).wf(),
                    self.sampler == old(self).sampler,
                    self.converter == old(self).converter,
                    self.surface.wf(),
                    w == self.surface.spec_width(),
                    h == self.surface.spec_height(),
                    w == old(self).surface.spec_width(),
                    h == old(self).surface.spec_height(),
                    1 <= w <= u16::MAX,
                    1 <= h <= u16::MAX,
                    self.surface.cells().len() == w * h,
                    y * w + w == (y + 1) * w,
                    (y + 1) * w <= w * h,
                    sampler.wf(),
                    sampler.char == create_spec(
                        old(self).sampler.char,
                        Config {
                            size: Vector { x: (w * UNIT) as i64, y: (h * 2 * UNIT) as i64 },
                            step,
                        },
                    ),
                    sampler.color == create_spec(
                        old(self).sampler.color,
                        Config {
                            size: Vector { x: (w * UNIT) as i64, y: (h * 2 * UNIT) as i64 },
                            step,
                        },
                    ),
                    frame == render_frame_spec(*old(self), step),
                    frame.len() == w * h,
                    forall|i: int| 0 <= i < y * w + x ==> self.surface.cells()[i] == frame[i],
                    forall|i: int|
                        y * w + x <= i < w * h ==> self.surface.cells()[i] == Cell::Keep,
                decreases w - x,
            {
                let ghost i = (y * w + x) as int;
                proof {
                    assert(0 <= y * w) by (nonlinear_arith)
                        requires
                            0 <= y as int,
                            0 <= w as int,
                    ;
                    lemma_fundamental_div_mod_converse(i, w as int, y as int, x as int);
                    assert(0 <= i < frame.len());
                }
                let pos = Vector::from_terminal(x as u16, y as u16);
                match self.converter.char(sampler.char(pos)) {
                    CharSample::Draw(ch) => {
                        let color = self.converter.color(sampler.color(pos));
                        self.surface.draw(x, y, ch, color);
                    },
                    CharSample::Clear => {
                        self.surface.clear(x, y);
                    },
                    CharSample::Keep => (),
                }
                proof {
                    assert(self.surface.cells()[i] == frame[i]);
                }
                x += 1;
            }
            y += 1;
        }
        proof {
            assert((h as int) * (w as int) == (w as int) * (h as int)) by (nonlinear_arith);
            assert(self.surface.cells() =~= frame);
        }
        self.surface.present()
    }
}

} // verus!
