use adventurers::CardinalDirection;
use adventurers::Coordinate;
use adventurers::Direction;

#[test]
fn a_coordinate_holds_what_it_was_made_of() {
    let cell = Coordinate::new(3, -4);
    assert_eq!(cell.x, 3);
    assert_eq!(cell.y, -4);
    assert_eq!(Coordinate::default(), Coordinate::new(0, 0));
}

#[test]
fn cardinal_directions_are_steps_of_one_cell() {
    assert_eq!(Direction::from(CardinalDirection::North), Direction { x: 0, y: -1 });
    assert_eq!(Direction::from(CardinalDirection::East), Direction { x: 1, y: 0 });
    assert_eq!(Direction::from(CardinalDirection::South), Direction { x: 0, y: 1 });
    assert_eq!(Direction::from(CardinalDirection::West), Direction { x: -1, y: 0 });
}

#[test]
fn directions_add_up() {
    let sum = Direction { x: 1, y: -2 } + Direction { x: 10, y: 20 };
    assert_eq!(sum, Direction { x: 11, y: 18 });
    let mut step = Direction { x: 1, y: 1 };
    step += Direction { x: -3, y: 4 };
    assert_eq!(step, Direction { x: -2, y: 5 });
}

#[test]
fn coordinates_move_by_coordinates_directions_and_sides() {
    let cell = Coordinate::new(2, 2);
    assert_eq!(cell + Coordinate::new(5, -7), Coordinate::new(7, -5));
    assert_eq!(cell + Direction { x: -2, y: 3 }, Coordinate::new(0, 5));
    assert_eq!(cell + CardinalDirection::North, Coordinate::new(2, 1));
    assert_eq!(cell + CardinalDirection::East, Coordinate::new(3, 2));
    assert_eq!(cell + CardinalDirection::South, Coordinate::new(2, 3));
    assert_eq!(cell + CardinalDirection::West, Coordinate::new(1, 2));
}

#[test]
fn coordinates_move_in_place() {
    let mut cell = Coordinate::new(2, 2);
    cell += Direction { x: 4, y: -4 };
    assert_eq!(cell, Coordinate::new(6, -2));
    cell += CardinalDirection::West;
    assert_eq!(cell, Coordinate::new(5, -2));
    cell += CardinalDirection::South;
    assert_eq!(cell, Coordinate::new(5, -1));
}

#[test]
fn a_coordinate_turns_into_a_pair() {
    let pair: (i32, i32) = Coordinate::new(8, -9).into();
    assert_eq!(pair, (8, -9));
}

#[test]
fn coordinates_reach_the_ends_of_the_grid() {
    let corner = Coordinate::new(i32::MAX - 1, i32::MIN + 1);
    assert_eq!(corner + CardinalDirection::East, Coordinate::new(i32::MAX, i32::MIN + 1));
    assert_eq!(corner + CardinalDirection::North, Coordinate::new(i32::MAX - 1, i32::MIN));
}
