use wipe::array::Array2D;

#[test]
fn array_width() {
    let array = Array2D::<()>::new(10, 4, ());

    assert_eq!(10, array.width());
}

#[test]
fn array_height() {
    let array = Array2D::<()>::new(2, 5, ());

    assert_eq!(5, array.height());
}

#[test]
fn index() {
    let mut array = Array2D::new(4, 4, 0);

    array.set((1, 2), 3);
    array.set((3, 3), 7);

    assert_eq!(3, array.get((1, 2)));
    assert_eq!(7, array.get((3, 3)));
}
