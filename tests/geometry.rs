use byteplug::geometry::{compute_bounds, Box, Position, Size};

#[test]
fn box_new() {
    let box_ = Box::new(Position::new(1, 2), Size::new(3, 4));

    assert_eq!(box_.position, Position::new(1, 2));
    assert_eq!(box_.size, Size::new(3, 4));
}

#[test]
fn box_zero() {
    let box_: Box<f32> = Box::zero();

    assert_eq!(box_.position, Position::new(0.0, 0.0));
    assert_eq!(box_.size, Size::zero());
}

#[test]
fn box_is_zero() {
    let mut box_: Box<f32> = Box::zero();
    assert_eq!(box_.is_zero(), true);

    box_.position.x = 1.0;
    box_.position.y = 0.0;
    box_.size.width = 0.0;
    box_.size.height = 0.0;
    assert_eq!(box_.is_zero(), false);

    box_.position.x = 0.0;
    box_.position.y = 0.0;
    box_.size.width = 0.0;
    box_.size.height = -1.0;
    assert_eq!(box_.is_zero(), false);
}

#[test]
fn box_edges_and_corners() {
    let box_ = Box::new(Position::new(1, 2), Size::new(3, 4));
    assert_eq!(box_.top_left(), Position::new(1, 2));
    assert_eq!(box_.top(), 2);
    assert_eq!(box_.left(), 1);
    assert_eq!(box_.right(), 4);
    assert_eq!(box_.bottom(), 6);
    assert_eq!(box_.top_right(), Position::new(4, 2));
    assert_eq!(box_.bottom_left(), Position::new(1, 6));
    assert_eq!(box_.bottom_right(), Position::new(4, 6));
}

#[test]
fn size_new() {
    let size = Size::new(1, 2);

    assert_eq!(size.width, 1);
    assert_eq!(size.height, 2);
}

#[test]
fn size_zero() {
    let size: Size<f32> = Size::zero();

    assert_eq!(size.width, 0.0);
    assert_eq!(size.height, 0.0);
}

#[test]
fn size_is_zero() {
    let mut size: Size<f32> = Size::zero();
    assert_eq!(size.is_zero(), true);

    size.width = 1.0;
    size.height = 0.0;
    assert_eq!(size.is_zero(), false);

    size.width = 0.0;
    size.height = -1.0;
    assert_eq!(size.is_zero(), false);
}

#[test]
fn size_is_zero_on_integers() {
    assert!(Size::<usize>::zero().is_zero());
    assert!(!Size::<i32>::new(0, 3).is_zero());
}

#[test]
fn position_add() {
    let a = Position::new(1, 2);
    let b = Position::new(3, 4);

    let mut c = a + b;
    assert_eq!(c, Position::new(4, 6));

    let d = Position::new(5, 6);
    c = c + d;
    assert_eq!(c, Position::new(9, 12));
}

#[test]
fn position_subtract() {
    let a = Position::new(1, 2);
    let b = Position::new(3, 4);

    let mut c = a - b;
    assert_eq!(c, Position::new(-2, -2));

    let d = Position::new(5, 6);
    c = c - d;
    assert_eq!(c, Position::new(-7, -8));
}

#[test]
fn position_multiplication() {
    let a = Position::new(1, 2);

    let b = a * 2;
    assert_eq!(b, Position::new(2, 4));

    let mut c = Position::new(5, 6);
    c = c * 2;
    assert_eq!(c, Position::new(10, 12));
}

#[test]
fn position_division() {
    let a = Position::new(2, 4);

    let b = a / 2;
    assert_eq!(b, Position::new(1, 2));

    let mut c = Position::new(10, 12);
    c = c / 2;
    assert_eq!(c, Position::new(5, 6));
}

#[test]
fn position_negation() {
    let a = Position::new(1, -2);
    let b = -a;
    assert_eq!(b, Position::new(-1, 2));
}

#[test]
fn compute_bounds_of_points() {
    let points = vec![
        Position::new(3, -1),
        Position::new(-2, 5),
        Position::new(7, 2),
        Position::new(0, 0),
    ];
    assert_eq!(compute_bounds(&points), Box::new(Position::new(-2, -1), Size::new(9, 6)));
}

#[test]
fn compute_bounds_of_one_point_and_of_none() {
    assert_eq!(compute_bounds(&vec![Position::new(4, 5)]), Box::new(Position::new(4, 5), Size::new(0, 0)));
    assert_eq!(compute_bounds(&vec![]), Box::new(Position::new(0, 0), Size::new(0, 0)));
}

#[test]
fn compute_bounds_of_the_widest_spread() {
    let points = vec![Position::new(i32::MAX, 0), Position::new(0, i32::MIN + 1)];
    assert_eq!(compute_bounds(&points), Box::new(Position::new(0, i32::MIN + 1), Size::new(i32::MAX, -(i32::MIN + 1))));
}
