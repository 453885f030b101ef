//! Vector geometry, in micro-units: `UNIT` is the value one.

use wipe::{Vector, UNIT};

#[test]
fn vec_new() {
    let v = Vector::new(4 * UNIT, 7 * UNIT);
    assert_eq!(4 * UNIT, v.x);
    assert_eq!(7 * UNIT, v.y);
}

#[test]
fn len() {
    // |(3, 8)| is about 8.5, within a tenth of a unit.
    let len = Vector::new(3 * UNIT, 8 * UNIT).len();
    assert!((len - 8_500_000).abs() < 100_000);
}

#[test]
fn abs() {
    assert_eq!(
        Vector::new(3 * UNIT, 7 * UNIT),
        Vector::new(-3 * UNIT, -7 * UNIT).abs()
    );
}

#[test]
fn sum() {
    assert_eq!(11 * UNIT, Vector::new(3 * UNIT, 8 * UNIT).sum());
}

#[test]
fn center() {
    assert_eq!(
        Vector::new(4 * UNIT, 9 * UNIT),
        Vector::new(8 * UNIT, 18 * UNIT).center()
    );
}

#[test]
fn angle() {
    // The angle of (2, -20) is about -1.5 radians; in micro-turns that is
    // about -238_700, within a tenth of a radian (about 15_900 micro-turns).
    let turns = Vector::new(2 * UNIT, -20 * UNIT).angle();
    assert!((turns - (-238_700)).abs() < 16_000);
}

#[test]
fn swap() {
    assert_eq!(
        Vector::new(7 * UNIT, 2 * UNIT),
        Vector::new(2 * UNIT, 7 * UNIT).swap()
    );
}
