//! Positions on the grid.

use crate::movement::direction::sum_fits;
use crate::movement::direction::CardinalDirection;
use crate::movement::direction::Direction;
use std::ops::Add;
use std::ops::AddAssign;
use vstd::prelude::*;
use vstd::std_specs::convert::FromSpecImpl;
use vstd::std_specs::ops::AddSpecImpl;

verus! {

/// A cell of the grid: `x` counts to the right, `y` counts down.
#[derive(Debug, Copy, Clone, PartialEq, Eq, Structural)]
pub struct Coordinate {
    pub x: i32,
    pub y: i32,
}

impl Coordinate {
    /// The cell at `x` and `y`.
    pub fn new(x: i32, y: i32) -> (cell: Coordinate)
        ensures
            cell == (Coordinate { x, y }),
    {
        Coordinate { x, y }
    }

    /// Where a step of `by` from this cell ends.
    pub open spec fn moved(self, by: Direction) -> Coordinate {
        Coordinate { x: (self.x + by.x) as i32, y: (self.y + by.y) as i32 }
    }

    /// Whether a step of `by` from this cell stays on the grid that `i32`
    /// spans.
    pub open spec fn can_move(self, by: Direction) -> bool {
        sum_fits(self.x, by.x) && sum_fits(self.y, by.y)
    }
}

impl Default for Coordinate {
    fn default() -> (cell: Coordinate)
        ensures
            cell == (Coordinate { x: 0, y: 0 }),
    {
        Coordinate { x: 0, y: 0 }
    }
}

impl Add for Coordinate {
    type Output = Coordinate;

    fn add(self, rhs: Coordinate) -> Coordinate {
        Coordinate { x: self.x + rhs.x, y: self.y + rhs.y }
    }
}

impl AddSpecImpl for Coordinate {
    open spec fn obeys_add_spec() -> bool {
        true
    }

    open spec fn add_req(self, rhs: Coordinate) -> bool {
        sum_fits(self.x, rhs.x) && sum_fits(self.y, rhs.y)
    }

    open spec fn add_spec(self, rhs: Coordinate) -> Coordinate {
        Coordinate { x: (self.x + rhs.x) as i32, y: (self.y + rhs.y) as i32 }
    }
}

impl Add<Direction> for Coordinate {
    type Output = Coordinate;

    fn add(self, rhs: Direction) -> Coordinate {
        Coordinate { x: self.x + rhs.x, y: self.y + rhs.y }
    }
}

impl AddSpecImpl<Direction> for Coordinate {
    open spec fn obeys_add_spec() -> bool {
        true
    }

    open spec fn add_req(self, rhs: Direction) -> bool {
        self.can_move(rhs)
    }

    open spec fn add_spec(self, rhs: Direction) -> Coordinate {
        self.moved(rhs)
    }
}

impl AddAssign<Direction> for Coordinate {
    fn add_assign(&mut self, rhs: Direction)
        requires
            old(self).can_move(rhs),
        ensures
            *final(self) == old(self).moved(rhs),
    {
        self.x += rhs.x;
        self.y += rhs.y;
    }
}

impl Add<CardinalDirection> for Coordinate {
    type Output = Coordinate;

    fn add(self, rhs: CardinalDirection) -> Coordinate {
        let dir = Direction::from(rhs);
        Coordinate { x: self.x + dir.x, y: self.y + dir.y }
    }
}

impl AddSpecImpl<CardinalDirection> for Coordinate {
    open spec fn obeys_add_spec() -> bool {
        true
    }

    open spec fn add_req(self, rhs: CardinalDirection) -> bool {
        self.can_move(rhs.step())
    }

    open spec fn add_spec(self, rhs: CardinalDirection) -> Coordinate {
        self.moved(rhs.step())
    }
}

impl AddAssign<CardinalDirection> for Coordinate {
    fn add_assign(&mut self, rhs: CardinalDirection)
        requires
            old(self).can_move(rhs.step()),
        ensures
            *final(self) == old(self).moved(rhs.step()),
    {
        let dir = Direction::from(rhs);
        self.x += dir.x;
        self.y += dir.y;
    }
}

impl From<Coordinate> for (i32, i32) {
    fn from(cell: Coordinate) -> (i32, i32) {
        (cell.x, cell.y)
    }
}

impl FromSpecImpl<Coordinate> for (i32, i32) {
    open spec fn obeys_from_spec() -> bool {
        true
    }

    open spec fn from_spec(cell: Coordinate) -> (i32, i32) {
        (cell.x, cell.y)
    }
}

} // verus!
