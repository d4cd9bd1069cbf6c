//! What the player can do.

use vstd::prelude::*;
use crate::location::Coord;

verus! {

/// A player action.
#[derive(Clone, Copy, Debug, PartialEq, Eq, Structural)]
pub enum Action {
    Describe,
    Go,
    Wait,
    Quit,
}

/// The menu label of an action.
pub open spec fn action_label(a: Action) -> Seq<char> {
    match a {
        Action::Describe => "describe"@,
        Action::Go => "go"@,
        Action::Wait => "wait"@,
        Action::Quit => "quit"@,
    }
}

impl Action {
    /// The menu label of this action.
    pub fn label(&self) -> (r: &'static str)
        ensures
            r@ == action_label(*self),
    {
        match self {
            Action::Describe => "describe",
            Action::Go => "go",
            Action::Wait => "wait",
            Action::Quit => "quit",
        }
    }
}

/// A compass direction to walk in.
#[derive(Clone, Copy, Debug, PartialEq, Eq, Structural)]
pub enum Direction {
    North,
    South,
    East,
    West,
}

/// The name of a direction.
pub open spec fn direction_label(d: Direction) -> Seq<char> {
    match d {
        Direction::North => "north"@,
        Direction::South => "south"@,
        Direction::East => "east"@,
        Direction::West => "west"@,
    }
}

impl Direction {
    /// The step of length `m` in this direction, as north and west offsets.
    pub fn as_coord_with_magnitude(&self, m: i8) -> (c: Coord)
        requires
            m > i8::MIN,
        ensures
            c.n == match *self {
                Direction::North => m as int,
                Direction::South => -m,
                _ => 0,
            },
            c.w == match *self {
                Direction::West => m as int,
                Direction::East => -m,
                _ => 0,
            },
    {
        let (n, w): (i8, i8) = match self {
            Direction::North => (m, 0),
            Direction::South => (-m, 0),
            Direction::East => (0, -m),
            Direction::West => (0, m),
        };
        Coord { n, w }
    }

    /// The name of this direction.
    pub fn label(&self) -> (r: &'static str)
        ensures
            r@ == direction_label(*self),
    {
        match self {
            Direction::North => "north",
            Direction::South => "south",
            Direction::East => "east",
            Direction::West => "west",
        }
    }
}

} // verus!
