//! The pattern algebra: base field generators and decorator transforms that
//! compose into a tree.
//!
//! A [`PatternTree`] is a blueprint; binding it to one frame's [`Config`]
//! with [`PatternTree::create`] yields a [`Pattern`] instance, and sampling
//! the instance at a position yields a level in micro-units. Levels inside
//! `[0, UNIT)` draw; levels outside are sentinels for keeping or clearing
//! a cell.

mod circle;
mod line;
mod rhombus;
mod wheel;

pub use circle::CircleFactory;
pub use line::LineFactory;
pub use rhombus::RhombusFactory;
pub use wheel::WheelFactory;

use vstd::prelude::*;
use vstd::arithmetic::mul::lemma_mul_inequality;
use crate::math::{div_floor, mod_euclid, sat64, sat_add, sat_mul, sat_sub, UNIT};
use crate::vec::{abs_i, angle_spec, len_spec, sqrt_floor, Vector, COORD_LIMIT, HALF_TURN};

verus! {

/// The largest segment or slice factor a pattern tree accepts.
pub const FACTOR_LIMIT: i64 = 1_000_000;

/// A configuration for a [`Pattern`]: the terminal size in field
/// coordinates and the animation step in micro-units.
#[derive(Copy, Clone, PartialEq, Eq, Structural, Debug)]
pub struct Config {
    /// The size of the terminal.
    pub size: Vector,
    /// The current state of the animation, in `[0, UNIT]`.
    pub step: i64,
}

impl Config {
    /// The size is a nonnegative in-range vector and the step lies in
    /// `[0, UNIT]`.
    pub open spec fn wf(&self) -> bool {
        &&& 0 <= self.size.x <= COORD_LIMIT
        &&& 0 <= self.size.y <= COORD_LIMIT
        &&& 0 <= self.step <= UNIT
    }

    /// A well-formed configuration whose size is not degenerate, so every
    /// base pattern has a positive normalizer.
    pub open spec fn usable(&self) -> bool {
        &&& self.wf()
        &&& self.size.x >= 2
        &&& self.size.y >= 2
    }
}

impl Default for Config {
    /// The empty configuration: zero size, step zero.
    fn default() -> (c: Config)
        ensures
            c.size.x == 0,
            c.size.y == 0,
            c.step == 0,
    {
        Config { size: Vector { x: 0, y: 0 }, step: 0 }
    }
}

/// The four base patterns.
#[derive(Copy, Clone, PartialEq, Eq, Structural, Debug)]
pub enum PatternEnum {
    Circle,
    Line,
    Rhombus,
    Wheel,
}

/// A blueprint for a [`Pattern`]: a base generator wrapped in zero or more
/// decorator transforms. Each decorator owns exactly one child, so the
/// blueprint is a tree.
#[derive(Debug)]
pub enum PatternTree {
    /// Distance from the grid center, normalized by the center's length.
    Circle,
    /// The x-coordinate, normalized by the grid width.
    Line,
    /// Manhattan distance from the grid center, normalized by the center's
    /// Manhattan length.
    Rhombus,
    /// The angle around the grid center, as a fraction of a full turn.
    Wheel,
    /// Adds `1 - 2 * step` to the child's level, sliding its transition
    /// boundary across time.
    Shift(Box<PatternTree>),
    /// Inverts both the child's level and the direction of time.
    Invert(Box<PatternTree>),
    /// Swaps the axes of both the grid and the sampled position.
    Swap(Box<PatternTree>),
    /// Repeats the child's transition band the given number of times.
    Segments(Box<PatternTree>, i64),
    /// Rescales the final `1/n` fraction of the child's range to `[0, 1]`.
    Slice(Box<PatternTree>, i64),
}

/// A pattern instance bound to one frame's configuration.
#[derive(Debug)]
pub enum Pattern {
    Circle { center: Vector, radius: i64 },
    Line { width: i64 },
    Rhombus { center: Vector, distance: i64 },
    Wheel { center: Vector },
    Shift { child: Box<Pattern>, shift: i64 },
    Invert { child: Box<Pattern> },
    Swap { child: Box<Pattern> },
    Segments { child: Box<Pattern>, segments: i64 },
    Slice { child: Box<Pattern>, slices: i64 },
}

/// The level of a pattern instance at a position, in micro-units.
pub open spec fn sample_spec(p: Pattern, pos: Vector) -> int
    decreases p,
{
    match p {
        Pattern::Circle { center, radius } => (sqrt_floor(
            (pos.x - center.x) * (pos.x - center.x) + (pos.y - center.y) * (pos.y - center.y),
        ) * UNIT) / (radius as int),
        Pattern::Line { width } => (pos.x * UNIT) / (width as int),
        Pattern::Rhombus { center, distance } => ((abs_i(pos.x - center.x) + abs_i(
            pos.y - center.y,
        )) * UNIT) / (distance as int),
        Pattern::Wheel { center } => angle_spec(pos.x - center.x, pos.y - center.y) + HALF_TURN,
        Pattern::Shift { child, shift } => sat64(sample_spec(*child, pos) + UNIT - 2 * shift),
        Pattern::Invert { child } => sat64(UNIT - sample_spec(*child, pos)),
        Pattern::Swap { child } => sample_spec(*child, Vector { x: pos.y, y: pos.x }),
        Pattern::Segments { child, segments } => {
            let s = sample_spec(*child, pos);
            if 0 <= s < UNIT {
                (s * segments) % (UNIT as int)
            } else {
                s
            }
        },
        Pattern::Slice { child, slices } => sat64(
            sat64(sample_spec(*child, pos) * slices) - (slices - 1) * UNIT,
        ),
    }
}

/// The instance that binding a blueprint to a configuration produces.
pub open spec fn create_spec(t: PatternTree, config: Config) -> Pattern
    decreases t,
{
    let cx = config.size.x as int / 2;
    let cy = config.size.y as int / 2;
    match t {
        PatternTree::Circle => Pattern::Circle {
            center: Vector { x: cx as i64, y: cy as i64 },
            radius: sqrt_floor(cx * cx + cy * cy) as i64,
        },
        PatternTree::Line => Pattern::Line { width: config.size.x },
        PatternTree::Rhombus => Pattern::Rhombus {
            center: Vector { x: cx as i64, y: cy as i64 },
            distance: (cx + cy) as i64,
        },
        PatternTree::Wheel => Pattern::Wheel { center: Vector { x: cx as i64, y: cy as i64 } },
        PatternTree::Shift(child) => Pattern::Shift {
            child: Box::new(create_spec(*child, config)),
            shift: config.step,
        },
        PatternTree::Invert(child) => Pattern::Invert {
            child: Box::new(
                create_spec(*child, Config { size: config.size, step: (UNIT - config.step) as i64 }),
            ),
        },
        PatternTree::Swap(child) => Pattern::Swap {
            child: Box::new(
                create_spec(
                    *child,
                    Config { size: Vector { x: config.size.y, y: config.size.x }, step: config.step },
                ),
            ),
        },
        PatternTree::Segments(child, segments) => Pattern::Segments {
            child: Box::new(create_spec(*child, config)),
            segments,
        },
        PatternTree::Slice(child, slices) => Pattern::Slice {
            child: Box::new(create_spec(*child, config)),
            slices,
        },
    }
}

impl PatternTree {
    /// Every segment and slice factor in the tree lies in
    /// `[1, FACTOR_LIMIT]`.
    pub open spec fn wf(&self) -> bool
        decreases self,
    {
        match *self {
            PatternTree::Circle => true,
            PatternTree::Line => true,
            PatternTree::Rhombus => true,
            PatternTree::Wheel => true,
            PatternTree::Shift(child) => child.wf(),
            PatternTree::Invert(child) => child.wf(),
            PatternTree::Swap(child) => child.wf(),
            PatternTree::Segments(child, segments) => child.wf() && 1 <= segments
                <= FACTOR_LIMIT,
            PatternTree::Slice(child, slices) => child.wf() && 1 <= slices <= FACTOR_LIMIT,
        }
    }

    /// Binds the blueprint to one frame's configuration.
    pub fn create(&self, config: &Config) -> (p: Pattern)
        requires
            self.wf(),
            config.usable(),
        ensures
            p == create_spec(*self, *config),
            p.wf(),
        decreases self,
    {
        match self {
            PatternTree::Circle => {
                let center = config.size.center();
                let radius = center.len();
                proof {
                    lemma_radius_bounds(center.x as int, center.y as int, radius as int);
                }
                Pattern::Circle { center, radius }
            },
            PatternTree::Line => Pattern::Line { width: config.size.x },
            PatternTree::Rhombus => {
                let center = config.size.center();
                let distance = center.sum();
                Pattern::Rhombus { center, distance }
            },
            PatternTree::Wheel => Pattern::Wheel { center: config.size.center() },
            PatternTree::Shift(child) => Pattern::Shift {
                child: Box::new(child.create(config)),
                shift: config.step,
            },
            PatternTree::Invert(child) => {
                let inner = Config { size: config.size, step: UNIT - config.step };
                Pattern::Invert { child: Box::new(child.create(&inner)) }
            },
            PatternTree::Swap(child) => {
                let inner = Config { size: config.size.swap(), step: config.step };
                Pattern::Swap { child: Box::new(child.create(&inner)) }
            },
            PatternTree::Segments(child, segments) => Pattern::Segments {
                child: Box::new(child.create(config)),
                segments: *segments,
            },
            PatternTree::Slice(child, slices) => Pattern::Slice {
                child: Box::new(child.create(config)),
                slices: *slices,
            },
        }
    }
}

/// The center of a usable configuration determines a positive, in-range
/// circle radius.
proof fn lemma_radius_bounds(cx: int, cy: int, r: int)
    requires
        1 <= cx <= COORD_LIMIT,
        1 <= cy <= COORD_LIMIT,
        r == sqrt_floor(cx * cx + cy * cy),
        crate::math::isqrt_spec(cx * cx + cy * cy, r),
    ensures
        1 <= r <= 2 * COORD_LIMIT,
{
    assert(1 <= cx * cx && cx * cx <= COORD_LIMIT as int * COORD_LIMIT as int && 1 <= cy * cy
        && cy * cy <= COORD_LIMIT as int * COORD_LIMIT as int) by (nonlinear_arith)
        requires
            1 <= cx <= COORD_LIMIT as int,
            1 <= cy <= COORD_LIMIT as int,
    ;
    if r < 1 {
        assert((r + 1) * (r + 1) <= 1) by (nonlinear_arith)
            requires
                0 <= r < 1,
        ;
    }
    let b = 2 * (COORD_LIMIT as int);
    if r > b {
        lemma_mul_inequality(b + 1, r, b + 1);
        lemma_mul_inequality(b + 1, r, r);
        assert(2 * (COORD_LIMIT as int) * (COORD_LIMIT as int) < (b + 1) * (b + 1))
            by (nonlinear_arith)
            requires
                b == 2 * (COORD_LIMIT as int),
        ;
    }
}

impl Pattern {
    /// Bounds on the stored geometry, preserved from creation, that keep
    /// sampling free of overflow.
    pub open spec fn wf(&self) -> bool
        decreases self,
    {
        match *self {
            Pattern::Circle { center, radius } => {
                &&& 0 <= center.x <= COORD_LIMIT
                &&& 0 <= center.y <= COORD_LIMIT
                &&& 1 <= radius <= 2 * COORD_LIMIT
            },
            Pattern::Line { width } => 1 <= width <= COORD_LIMIT,
            Pattern::Rhombus { center, distance } => {
                &&& 0 <= center.x <= COORD_LIMIT
                &&& 0 <= center.y <= COORD_LIMIT
                &&& 1 <= distance <= 2 * COORD_LIMIT
            },
            Pattern::Wheel { center } => 0 <= center.x <= COORD_LIMIT && 0 <= center.y
                <= COORD_LIMIT,
            Pattern::Shift { child, shift } => child.wf() && 0 <= shift <= UNIT,
            Pattern::Invert { child } => child.wf(),
            Pattern::Swap { child } => child.wf(),
            Pattern::Segments { child, segments } => child.wf() && 1 <= segments
                <= FACTOR_LIMIT,
            Pattern::Slice { child, slices } => child.wf() && 1 <= slices <= FACTOR_LIMIT,
        }
    }

    /// Returns the level for a given coordinate. For a base pattern the
    /// start of the animation is level zero and its boundary is level one.
    pub fn sample(&self, pos: Vector) -> (r: i64)
        requires
            self.wf(),
            pos.in_range(),
        ensures
            r == sample_spec(*self, pos),
        decreases self,
    {
        match self {
            Pattern::Circle { center, radius } => {
                let d = pos.sub(*center);
                let dist = d.len();
                div_floor(dist * UNIT, *radius)
            },
            Pattern::Line { width } => div_floor(pos.x * UNIT, *width),
            Pattern::Rhombus { center, distance } => {
                let d = pos.sub(*center).abs();
                div_floor(d.sum() * UNIT, *distance)
            },
            Pattern::Wheel { center } => pos.sub(*center).angle() + HALF_TURN,
            Pattern::Shift { child, shift } => {
                let s = child.sample(pos);
                sat_add(s, UNIT - 2 * *shift)
            },
            Pattern::Invert { child } => {
                let s = child.sample(pos);
                sat_sub(UNIT, s)
            },
            Pattern::Swap { child } => child.sample(pos.swap()),
            Pattern::Segments { child, segments } => {
                let s = child.sample(pos);
                if 0 <= s && s < UNIT {
                    proof {
                        assert(0 <= s as int * (*segments as int) <= 1_000_000_000_000int)
                            by (nonlinear_arith)
                            requires
                                0 <= (s as int) < 1_000_000int,
                                1 <= (*segments as int) <= 1_000_000int,
                        ;
                    }
                    mod_euclid(s * *segments, UNIT)
                } else {
                    s
                }
            },
            Pattern::Slice { child, slices } => {
                let s = child.sample(pos);
                sat_sub(sat_mul(s, *slices), (*slices - 1) * UNIT)
            },
        }
    }
}

/// The base blueprint for a base pattern choice.
pub open spec fn base_tree_spec(pattern: PatternEnum) -> PatternTree {
    match pattern {
        PatternEnum::Circle => PatternTree::Circle,
        PatternEnum::Line => PatternTree::Line,
        PatternEnum::Rhombus => PatternTree::Rhombus,
        PatternEnum::Wheel => PatternTree::Wheel,
    }
}

/// The blueprint a [`PatternConfig`] describes: the base pattern wrapped in
/// the chosen decorators, shift innermost, then invert, swap, segments and
/// slice outermost.
pub open spec fn config_tree_spec(c: PatternConfig) -> PatternTree {
    let base = base_tree_spec(c.pattern);
    let shifted = if c.shift {
        PatternTree::Shift(Box::new(base))
    } else {
        base
    };
    let inverted = if c.invert {
        PatternTree::Invert(Box::new(shifted))
    } else {
        shifted
    };
    let swapped = if c.swap {
        PatternTree::Swap(Box::new(inverted))
    } else {
        inverted
    };
    let segmented = if c.segments != 1 {
        PatternTree::Segments(Box::new(swapped), c.segments)
    } else {
        swapped
    };
    if c.slices != 1 {
        PatternTree::Slice(Box::new(segmented), c.slices)
    } else {
        segmented
    }
}

/// A configuration for a composed pattern blueprint.
#[derive(Copy, Clone, PartialEq, Eq, Structural, Debug)]
pub struct PatternConfig {
    /// The base pattern.
    pub pattern: PatternEnum,
    /// Whether the pattern is animated by a time shift.
    pub shift: bool,
    /// Whether level and time are inverted.
    pub invert: bool,
    /// Whether the axes are swapped.
    pub swap: bool,
    /// The segment count, in `[1, FACTOR_LIMIT]`.
    pub segments: i64,
    /// The slice count, in `[1, FACTOR_LIMIT]`.
    pub slices: i64,
}

impl PatternConfig {
    /// The factor fields lie in `[1, FACTOR_LIMIT]`.
    pub open spec fn wf(&self) -> bool {
        &&& 1 <= self.segments <= FACTOR_LIMIT
        &&& 1 <= self.slices <= FACTOR_LIMIT
    }

    /// Creates a new configuration.
    pub fn new(
        pattern: PatternEnum,
        shift: bool,
        invert: bool,
        swap: bool,
        segments: i64,
        slices: i64,
    ) -> (c: PatternConfig)
        ensures
            c == (PatternConfig { pattern, shift, invert, swap, segments, slices }),
    {
        PatternConfig { pattern, shift, invert, swap, segments, slices }
    }

    /// Creates the base blueprint, without decorators.
    pub fn create_base(&self) -> (t: PatternTree)
        ensures
            t == base_tree_spec(self.pattern),
    {
        match self.pattern {
            PatternEnum::Circle => PatternTree::Circle,
            PatternEnum::Line => PatternTree::Line,
            PatternEnum::Rhombus => PatternTree::Rhombus,
            PatternEnum::Wheel => PatternTree::Wheel,
        }
    }

    /// Creates the composed blueprint.
    pub fn create(&self) -> (t: PatternTree)
        requires
            self.wf(),
        ensures
            t == config_tree_spec(*self),
            t.wf(),
    {
        let mut tree = self.create_base();
        assert(tree.wf());
        if self.shift {
            tree = PatternTree::Shift(Box::new(tree));
        }
        assert(tree.wf());
        if self.invert {
            tree = PatternTree::Invert(Box::new(tree));
        }
        assert(tree.wf());
        if self.swap {
            tree = PatternTree::Swap(Box::new(tree));
        }
        assert(tree.wf());
        if self.segments != 1 {
            tree = PatternTree::Segments(Box::new(tree), self.segments);
        }
        assert(tree.wf());
        if self.slices != 1 {
            tree = PatternTree::Slice(Box::new(tree), self.slices);
        }
        assert(tree.wf());
        tree
    }
}

/// A factory for a [`SamplerImpl`]: one blueprint for the glyph field and
/// one for the color field, bound to the same configuration.
#[derive(Debug)]
pub struct SamplerFactoryImpl {
    /// The blueprint of the glyph field.
    pub char: PatternTree,
    /// The blueprint of the color field.
    pub color: PatternTree,
}

/// A sampler for the glyph level and the color level of one frame.
#[derive(Debug)]
pub struct SamplerImpl {
    /// The glyph field.
    pub char: Pattern,
    /// The color field.
    pub color: Pattern,
}

impl SamplerFactoryImpl {
    /// Both blueprints are well formed.
    pub open spec fn wf(&self) -> bool {
        self.char.wf() && self.color.wf()
    }

    /// Creates a new factory from the two blueprints.
    pub fn new(char: PatternTree, color: PatternTree) -> (f: SamplerFactoryImpl)
        ensures
            f.char == char,
            f.color == color,
    {
        SamplerFactoryImpl { char, color }
    }

    /// Creates a new sampler, binding both blueprints to the same
    /// configuration so the two fields share one animation clock.
    pub fn create(&self, config: &Config) -> (s: SamplerImpl)
        requires
            self.wf(),
            config.usable(),
        ensures
            s.char == create_spec(self.char, *config),
            s.color == create_spec(self.color, *config),
            s.wf(),
    {
        SamplerImpl { char: self.char.create(config), color: self.color.create(config) }
    }
}

impl SamplerImpl {
    /// Both instances are well formed.
    pub open spec fn wf(&self) -> bool {
        self.char.wf() && self.color.wf()
    }

    /// Returns the glyph level for a given position.
    pub fn char(&self, pos: Vector) -> (r: i64)
        requires
            self.wf(),
            pos.in_range(),
        ensures
            r == sample_spec(self.char, pos),
    {
        self.char.sample(pos)
    }

    /// Returns the color level for a given position.
    pub fn color(&self, pos: Vector) -> (r: i64)
        requires
            self.wf(),
            pos.in_range(),
        ensures
            r == sample_spec(self.color, pos),
    {
        self.color.sample(pos)
    }
}

} // verus!
