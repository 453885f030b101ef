//! The fill modes and their factory.

use wipe::fill::{
    CircleFillMode, FillMode, FillModeEnum, LevelFillMode, SimpleFillModeFactory, StripesFillMode,
};
use wipe::{Vector, UNIT};

#[test]
fn fill_circle_sample() {
    let fill = CircleFillMode::new(Vector::new(10 * UNIT, 8 * UNIT));

    let sample_1 = fill.sample(0, Vector::new(5 * UNIT, 3 * UNIT));
    let sample_2 = fill.sample(0, Vector::new(8 * UNIT + UNIT / 2, 4 * UNIT));

    assert!(4 * UNIT / 10 < sample_1 && sample_1 < 6 * UNIT / 10);
    assert!(7 * UNIT / 10 < sample_2 && sample_2 < 8 * UNIT / 10);
}

#[test]
fn level_sample() {
    let mode = LevelFillMode::new();

    assert_eq!(3 * UNIT / 10, mode.sample(3 * UNIT / 10, Vector::default()));
    assert_eq!(
        7 * UNIT / 10,
        mode.sample(7 * UNIT / 10, Vector::new(UNIT / 10, UNIT / 5))
    );
}

#[test]
fn stripes_sample() {
    let mode = StripesFillMode::new(Vector::new(8 * UNIT, 4 * UNIT));

    assert_eq!(
        UNIT / 4,
        mode.sample(0, Vector::new(UNIT + UNIT / 2, 3 * UNIT / 4))
    );
    assert_eq!(
        UNIT / 2,
        mode.sample(0, Vector::new(4 * UNIT, 2 * UNIT + UNIT / 2))
    );
}

#[test]
fn fill_factory_create() {
    let factory = SimpleFillModeFactory::new();
    let size = Vector::default();

    factory.create(FillModeEnum::Circle, size);
    factory.create(FillModeEnum::Level, size);
    factory.create(FillModeEnum::Stripe, size);
}

#[test]
fn fill_factory_choose_from_all() {
    let factory = SimpleFillModeFactory::new();

    assert!(matches!(
        factory.pick(Vec::new(), 2),
        FillModeEnum::Stripe
    ));
}

#[test]
fn fill_factory_choose_from_options() {
    let factory = SimpleFillModeFactory::new();
    let options = vec![FillModeEnum::Circle];

    assert!(matches!(factory.pick(options, 1), FillModeEnum::Circle));
}

#[test]
fn fill_mode_dispatch() {
    let size = Vector::new(8 * UNIT, 4 * UNIT);
    let factory = SimpleFillModeFactory::new();

    let level = factory.create(FillModeEnum::Level, size);
    assert!(matches!(level, FillMode::Level(_)));
    assert_eq!(UNIT / 2, level.sample(UNIT / 2, Vector::default()));

    let stripes = factory.create(FillModeEnum::Stripe, size);
    assert_eq!(
        UNIT / 2,
        stripes.sample(0, Vector::new(4 * UNIT, 2 * UNIT + UNIT / 2))
    );
}
