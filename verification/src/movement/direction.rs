//! Steps on the grid: by any amount, or by one cell to a side.

use std::ops::Add;
use std::ops::AddAssign;
use vstd::prelude::*;
use vstd::std_specs::convert::FromSpecImpl;
use vstd::std_specs::ops::AddSpecImpl;

verus! {

/// A step on the grid: so many cells to the right and so many down.
#[derive(Debug, Copy, Clone, PartialEq, Eq, Structural)]
pub struct Direction {
    pub x: i32,
    pub y: i32,
}

/// One of the four sides. North is up, towards smaller `y`.
#[derive(Debug, Copy, Clone, PartialEq, Eq, Structural)]
pub enum CardinalDirection {
    North,
    East,
    South,
    West,
}

/// Whether `a + b` is a number that `i32` holds.
pub open spec fn sum_fits(a: i32, b: i32) -> bool {
    i32::MIN <= a + b <= i32::MAX
}

impl CardinalDirection {
    /// The step of one cell to this side.
    pub open spec fn step(self) -> Direction {
        match self {
            CardinalDirection::North => Direction { x: 0, y: -1i32 },
            CardinalDirection::East => Direction { x: 1, y: 0 },
            CardinalDirection::South => Direction { x: 0, y: 1 },
            CardinalDirection::West => Direction { x: -1i32, y: 0 },
        }
    }
}

impl Add for Direction {
    type Output = Direction;

    fn add(self, rhs: Direction) -> Direction {
        Direction { x: self.x + rhs.x, y: self.y + rhs.y }
    }
}

impl AddSpecImpl for Direction {
    open spec fn obeys_add_spec() -> bool {
        true
    }

    open spec fn add_req(self, rhs: Direction) -> bool {
        sum_fits(self.x, rhs.x) && sum_fits(self.y, rhs.y)
    }

    open spec fn add_spec(self, rhs: Direction) -> Direction {
        Direction { x: (self.x + rhs.x) as i32, y: (self.y + rhs.y) as i32 }
    }
}

impl AddAssign for Direction {
    fn add_assign(&mut self, rhs: Direction)
        requires
            sum_fits(old(self).x, rhs.x),
            sum_fits(old(self).y, rhs.y),
        ensures
            final(self).x == old(self).x + rhs.x,
            final(self).y == old(self).y + rhs.y,
    {
        self.x += rhs.x;
        self.y += rhs.y;
    }
}

impl From<CardinalDirection> for Direction {
    fn from(card_dir: CardinalDirection) -> Direction {
        match card_dir {
            CardinalDirection::North => Direction { x: 0, y: -1 },
            CardinalDirection::East => Direction { x: 1, y: 0 },
            CardinalDirection::South => Direction { x: 0, y: 1 },
            CardinalDirection::West => Direction { x: -1, y: 0 },
        }
    }
}

impl FromSpecImpl<CardinalDirection> for Direction {
    open spec fn obeys_from_spec() -> bool {
        true
    }

    open spec fn from_spec(card_dir: CardinalDirection) -> Direction {
        card_dir.step()
    }
}

} // verus!
