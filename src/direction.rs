//! Movement headings and their numeric codes.
use vstd::prelude::*;
use crate::raw::{DIRECTION_EAST, DIRECTION_NORTH, DIRECTION_SOUTH, DIRECTION_WEST};

verus! {

/// A heading on the arena grid; there are no diagonals.
#[derive(Debug, Copy, Clone, PartialEq, Eq, Hash, Structural)]
pub enum Direction {
    North,
    East,
    South,
    West,
}

/// The host's numeric code of a heading.
pub open spec fn direction_code(d: Direction) -> u32 {
    match d {
        Direction::North => DIRECTION_NORTH,
        Direction::East => DIRECTION_EAST,
        Direction::South => DIRECTION_SOUTH,
        Direction::West => DIRECTION_WEST,
    }
}

/// The heading that a code names, if any.
pub open spec fn direction_of_code(code: u32) -> Option<Direction> {
    if code == DIRECTION_NORTH {
        Some(Direction::North)
    } else if code == DIRECTION_EAST {
        Some(Direction::East)
    } else if code == DIRECTION_SOUTH {
        Some(Direction::South)
    } else if code == DIRECTION_WEST {
        Some(Direction::West)
    } else {
        None
    }
}

impl Direction {
    /// The code handed to the host when this heading is set.
    pub fn code(self) -> (r: u32)
        ensures
            r == direction_code(self),
    {
        match self {
            Direction::North => DIRECTION_NORTH,
            Direction::East => DIRECTION_EAST,
            Direction::South => DIRECTION_SOUTH,
            Direction::West => DIRECTION_WEST,
        }
    }

    /// The heading with the given code, if the code names one. No heading is
    /// ever made up from a code outside the four defined ones.
    pub fn from_code(code: u32) -> (r: Option<Direction>)
        ensures
            r == direction_of_code(code),
            r is None <==> code > DIRECTION_WEST,
    {
        if code == DIRECTION_NORTH {
            Some(Direction::North)
        } else if code == DIRECTION_EAST {
            Some(Direction::East)
        } else if code == DIRECTION_SOUTH {
            Some(Direction::South)
        } else if code == DIRECTION_WEST {
            Some(Direction::West)
        } else {
            None
        }
    }
}

/// Each heading is encoded as its fixed code (north 0, east 1, south 2,
/// west 3), and decoding that code gives the same heading back.
pub proof fn lemma_direction_round_trip(d: Direction)
    ensures
        d == Direction::North ==> direction_code(d) == 0,
        d == Direction::East ==> direction_code(d) == 1,
        d == Direction::South ==> direction_code(d) == 2,
        d == Direction::West ==> direction_code(d) == 3,
        direction_of_code(direction_code(d)) == Some(d),
        forall|e: Direction| direction_code(e) == direction_code(d) ==> e == d,
{
}

} // verus!
