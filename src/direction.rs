use crate::random::random_below;
use vstd::prelude::*;

verus! {

/// The eight compass directions; north is towards smaller `y`.
#[allow(non_camel_case_types)]
#[derive(Clone, Copy, Debug, PartialEq, Eq, Structural)]
pub enum Direction {
    NORTH,
    NORTHEAST,
    EAST,
    SOUTHEAST,
    SOUTH,
    SOUTHWEST,
    WEST,
    NORTHWEST,
}

/// The direction that a draw `n` from `0..8` stands for, clockwise from north.
pub open spec fn direction_of_draw(n: u32) -> Direction {
    if n == 0 {
        Direction::NORTH
    } else if n == 1 {
        Direction::NORTHEAST
    } else if n == 2 {
        Direction::EAST
    } else if n == 3 {
        Direction::SOUTHEAST
    } else if n == 4 {
        Direction::SOUTH
    } else if n == 5 {
        Direction::SOUTHWEST
    } else if n == 6 {
        Direction::WEST
    } else {
        Direction::NORTHWEST
    }
}

impl Direction {
    /// Column offset of one step in this direction.
    pub open spec fn dx(self) -> int {
        match self {
            Direction::NORTHEAST | Direction::EAST | Direction::SOUTHEAST => 1,
            Direction::SOUTHWEST | Direction::WEST | Direction::NORTHWEST => -1,
            _ => 0,
        }
    }

    /// Row offset of one step in this direction.
    pub open spec fn dy(self) -> int {
        match self {
            Direction::SOUTHEAST | Direction::SOUTH | Direction::SOUTHWEST => 1,
            Direction::NORTHWEST | Direction::NORTH | Direction::NORTHEAST => -1,
            _ => 0,
        }
    }

    /// The reverse of a direction of the four-way model: north and south
    /// swap, west turns east, and every other direction turns west.
    pub fn opposite(&self) -> (r: Direction)
        ensures
            r == match *self {
                Direction::NORTH => Direction::SOUTH,
                Direction::SOUTH => Direction::NORTH,
                Direction::WEST => Direction::EAST,
                _ => Direction::WEST,
            },
    {
        if *self == Direction::NORTH {
            Direction::SOUTH
        } else if *self == Direction::SOUTH {
            Direction::NORTH
        } else if *self == Direction::WEST {
            Direction::EAST
        } else {
            Direction::WEST
        }
    }

    /// Maps a draw to a direction, clockwise from north; `7` and above give
    /// north-west.
    pub fn from_draw(n: u32) -> (r: Direction)
        ensures
            r == direction_of_draw(n),
    {
        match n {
            0 => Direction::NORTH,
            1 => Direction::NORTHEAST,
            2 => Direction::EAST,
            3 => Direction::SOUTHEAST,
            4 => Direction::SOUTH,
            5 => Direction::SOUTHWEST,
            6 => Direction::WEST,
            _ => Direction::NORTHWEST,
        }
    }

    /// Draws one of the eight directions with equal probability.
    pub fn random() -> (r: Direction)
        ensures
            exists|n: u32| n < 8 && r == direction_of_draw(n),
    {
        let n = random_below(8);
        Direction::from_draw(n)
    }
}

} // verus!
