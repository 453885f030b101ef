//! Selection among options, and the random chooser's membership promise.

use wipe::chooser::{select, Chooser, Collection};

#[derive(Debug, PartialEq)]
enum MockOptions {
    First,
    Second,
    Third,
}

impl Collection for MockOptions {
    fn all() -> Vec<Self> {
        vec![MockOptions::First, MockOptions::Second, MockOptions::Third]
    }
}

#[test]
fn select_wraps_around() {
    assert_eq!(20, select(vec![10, 20, 30], 4));
    assert_eq!(10, select(vec![10, 20, 30], 0));
}

#[test]
fn pick_from_selection() {
    let mut chooser = Chooser::new();

    let picked = chooser.pick(vec![MockOptions::First, MockOptions::Second]);

    assert!(matches!(picked, MockOptions::First | MockOptions::Second));
}

#[test]
fn pick_from_all() {
    let mut chooser = Chooser::new();

    let picked = chooser.pick(Vec::<MockOptions>::new());

    assert!(matches!(
        picked,
        MockOptions::First | MockOptions::Second | MockOptions::Third
    ));
}
