//! The base patterns, the decorator transforms and the sampler pair, all
//! sampled on concrete grids. Levels and coordinates are in micro-units.

use wipe::pattern::{
    CircleFactory, Config, LineFactory, PatternConfig, PatternEnum, PatternTree, RhombusFactory,
    SamplerFactoryImpl, WheelFactory,
};
use wipe::{Vector, UNIT};

fn config(x: i64, y: i64, step: i64) -> Config {
    Config {
        size: Vector::new(x, y),
        step,
    }
}

#[test]
fn circle_sample() {
    let config = config(10 * UNIT, 20 * UNIT, 0);
    let pattern = CircleFactory::default().create(&config);

    assert_eq!(UNIT, pattern.sample(Vector::new(0, 0)));
    assert_eq!(0, pattern.sample(Vector::new(5 * UNIT, 10 * UNIT)));
    let half = pattern.sample(Vector::new(7 * UNIT + UNIT / 2, 15 * UNIT));
    assert!((half - UNIT / 2).abs() < UNIT / 10);
}

#[test]
fn line_sample() {
    let config = config(20 * UNIT, 2 * UNIT, 0);
    let pattern = LineFactory::new().create(&config);

    assert_eq!(0, pattern.sample(Vector::new(0, 4 * UNIT)));
    assert_eq!(4 * UNIT / 10, pattern.sample(Vector::new(8 * UNIT, 8 * UNIT)));
    assert_eq!(8 * UNIT / 10, pattern.sample(Vector::new(16 * UNIT, 7 * UNIT)));
    assert_eq!(UNIT, pattern.sample(Vector::new(20 * UNIT, 3 * UNIT)));
}

#[test]
fn rhombus_sample() {
    let config = config(10 * UNIT, 5 * UNIT, 0);
    let pattern = RhombusFactory::new().create(&config);

    assert_eq!(UNIT, pattern.sample(Vector::new(0, 0)));
    assert_eq!(UNIT, pattern.sample(Vector::new(10 * UNIT, 5 * UNIT)));
    assert_eq!(0, pattern.sample(Vector::new(5 * UNIT, 2 * UNIT + UNIT / 2)));
    let half = pattern.sample(Vector::new(7 * UNIT, UNIT / 2));
    assert!((half - UNIT / 2).abs() < UNIT / 10);
}

#[test]
fn wheel_sample() {
    let config = config(10 * UNIT, 20 * UNIT, 0);
    let pattern = WheelFactory::new().create(&config);

    let near_zero = pattern.sample(Vector::new(0, 9 * UNIT));
    assert!(near_zero < UNIT / 10);
    assert_eq!(UNIT, pattern.sample(Vector::new(0, 10 * UNIT)));
    assert_eq!(UNIT / 2, pattern.sample(Vector::new(10 * UNIT, 10 * UNIT)));
    assert_eq!(3 * UNIT / 4, pattern.sample(Vector::new(5 * UNIT, 20 * UNIT)));
}

#[test]
fn sample_shifted() {
    // A child level of 0.6 at step 0.4 is shifted to 0.6 + 1 - 0.8 = 0.8.
    let config = config(10 * UNIT, 2 * UNIT, 4 * UNIT / 10);
    let pattern = PatternTree::Shift(Box::new(PatternTree::Line)).create(&config);

    assert_eq!(8 * UNIT / 10, pattern.sample(Vector::new(6 * UNIT, 0)));
}

#[test]
fn sample_inverted() {
    let config = config(10 * UNIT, 2 * UNIT, 0);
    let pattern = PatternTree::Invert(Box::new(PatternTree::Line)).create(&config);

    assert_eq!(3 * UNIT / 10, pattern.sample(Vector::new(7 * UNIT, 0)));
}

#[test]
fn sample_value_correct() {
    // The swapped pattern samples the child at the swapped position, on
    // the swapped grid.
    let config = config(2 * UNIT, 10 * UNIT, 0);
    let pattern = PatternTree::Swap(Box::new(PatternTree::Line)).create(&config);

    assert_eq!(4 * UNIT / 10, pattern.sample(Vector::new(0, 4 * UNIT)));
}

fn segments(n: i64) -> wipe::pattern::Pattern {
    let config = config(100 * UNIT, 2 * UNIT, 0);
    PatternTree::Segments(Box::new(PatternTree::Line), n).create(&config)
}

#[test]
fn sample_above_one_untouched() {
    assert_eq!(
        UNIT + UNIT / 10,
        segments(3).sample(Vector::new(110 * UNIT, 0))
    );
}

#[test]
fn sample_below_zero_untouched() {
    assert_eq!(
        -UNIT / 10,
        segments(3).sample(Vector::new(-10 * UNIT, 0))
    );
}

#[test]
fn sample_second_segment_begins_with_one() {
    assert_eq!(
        96 * UNIT / 100,
        segments(4).sample(Vector::new(74 * UNIT, 0))
    );
}

#[test]
fn sample_second_segment_ends_with_zero() {
    assert_eq!(0, segments(4).sample(Vector::new(50 * UNIT, 0)));
}

#[test]
fn sample_last_segment_begins_with_one() {
    assert_eq!(
        96 * UNIT / 100,
        segments(4).sample(Vector::new(24 * UNIT, 0))
    );
}

#[test]
fn sample_last_segment_ends_with_zero() {
    assert_eq!(0, segments(4).sample(Vector::new(0, 0)));
}

fn slice(n: i64) -> wipe::pattern::Pattern {
    let config = config(100 * UNIT, 2 * UNIT, 0);
    PatternTree::Slice(Box::new(PatternTree::Line), n).create(&config)
}

#[test]
fn sample_starts_with_one() {
    assert_eq!(UNIT, slice(4).sample(Vector::new(100 * UNIT, 0)));
}

#[test]
fn sample_ends_with_zero() {
    assert_eq!(0, slice(4).sample(Vector::new(75 * UNIT, 0)));
}

#[test]
fn sample_values_beyond_end_are_negative() {
    assert!(slice(4).sample(Vector::new(50 * UNIT, 0)) < 0);
}

#[test]
fn pattern_char() {
    // The glyph field of the sampler pair is the first blueprint.
    let config = config(10 * UNIT, 2 * UNIT, 0);
    let factory = SamplerFactoryImpl::new(PatternTree::Line, PatternTree::Circle);
    let sampler = factory.create(&config);

    assert_eq!(4 * UNIT / 10, sampler.char(Vector::new(4 * UNIT, 0)));
}

#[test]
fn pattern_color() {
    // The color field of the sampler pair is the second blueprint.
    let config = config(10 * UNIT, 2 * UNIT, 0);
    let factory = SamplerFactoryImpl::new(PatternTree::Circle, PatternTree::Line);
    let sampler = factory.create(&config);

    assert_eq!(4 * UNIT / 10, sampler.color(Vector::new(4 * UNIT, 0)));
}

#[test]
fn factory() {
    // Both fields are bound to the same configuration.
    let config = config(20 * UNIT, 2 * UNIT, 0);
    let factory = SamplerFactoryImpl::new(PatternTree::Line, PatternTree::Line);
    let sampler = factory.create(&config);

    assert_eq!(UNIT / 2, sampler.char(Vector::new(10 * UNIT, 0)));
    assert_eq!(UNIT / 2, sampler.color(Vector::new(10 * UNIT, 0)));
}

#[test]
fn pattern_config_all_defined() {
    for pattern in [
        PatternEnum::Circle,
        PatternEnum::Line,
        PatternEnum::Rhombus,
        PatternEnum::Wheel,
    ] {
        let config = PatternConfig::new(pattern, true, true, true, 3, 2);
        let frame = Config {
            size: Vector::from_terminal(10, 10),
            step: 0,
        };
        config.create().create(&frame).sample(Vector::default());
    }
}
