//! The expanding-shape animations, sampled on concrete grids.

use wipe::animation::{Animation, CircleAnimation, RhombusAnimation, RotationAnimation};
use wipe::{Vector, UNIT};

#[test]
fn animation_circle_sample() {
    let anim = CircleAnimation::new(Vector::new(10 * UNIT, 20 * UNIT));

    let sample_1 = anim.sample(UNIT / 2, Vector::new(17 * UNIT, 5 * UNIT));
    let sample_2 = anim.sample(8 * UNIT / 10, Vector::new(11 * UNIT, 8 * UNIT));
    let sample_3 = anim.sample(UNIT / 5, Vector::new(7 * UNIT, 10 * UNIT));

    assert!(3_300_000 < sample_1 && sample_1 < 3_400_000);
    assert!(-1_800_000 < sample_2 && sample_2 < -1_700_000);
    assert!(400_000 < sample_3 && sample_3 < 500_000);
}

#[test]
fn animation_rhombus_sample() {
    let anim = RhombusAnimation::new(Vector::new(30 * UNIT, 10 * UNIT));

    let sample_1 = anim.sample(UNIT / 5, Vector::new(5 * UNIT, 16 * UNIT));
    let sample_2 = anim.sample(7 * UNIT / 10, Vector::new(22 * UNIT, 2 * UNIT));
    let sample_3 = anim.sample(UNIT / 2, Vector::new(4 * UNIT, 7 * UNIT));

    assert!(4_800_000 < sample_1 && sample_1 < 4_900_000);
    // The exact fixed-point value lands on the band's edge: (10 - 15.6) / 4.
    assert!(-1_500_000 < sample_2 && sample_2 <= -1_400_000);
    assert!(700_000 < sample_3 && sample_3 < 800_000);
}

#[test]
fn rotation_sample() {
    let anim = RotationAnimation::new(Vector::new(30 * UNIT, 10 * UNIT));

    let sample_1 = anim.sample(3 * UNIT / 10, Vector::new(16 * UNIT, 3 * UNIT));
    let sample_2 = anim.sample(7 * UNIT / 10, Vector::new(22 * UNIT, 2 * UNIT));
    let sample_3 = anim.sample(UNIT / 2, Vector::new(4 * UNIT, 7 * UNIT));

    assert!(600_000 < sample_1 && sample_1 < 700_000);
    assert!(-3_100_000 < sample_2 && sample_2 < -3_000_000);
    assert!(4_700_000 < sample_3 && sample_3 < 4_800_000);
}
