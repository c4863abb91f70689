//! The six faces of the cube and the two directions of a twist.

use vstd::prelude::*;

verus! {

/// One of the six sides of the cube. Each has a fixed geometric role.
#[derive(Clone, Copy, Debug, PartialEq, Eq, Structural)]
pub enum Face {
    Up,
    Down,
    Front,
    Back,
    Left,
    Right,
}

impl Face {
    /// Place of the face in the colour order Up, Left, Front, Right, Back, Down.
    pub open spec fn ordinal(self) -> int {
        match self {
            Face::Up => 0,
            Face::Left => 1,
            Face::Front => 2,
            Face::Right => 3,
            Face::Back => 4,
            Face::Down => 5,
        }
    }

    /// The face at a place of the colour order; places past the end give `Down`.
    pub open spec fn at_ordinal(n: int) -> Face {
        if n <= 0 {
            Face::Up
        } else if n == 1 {
            Face::Left
        } else if n == 2 {
            Face::Front
        } else if n == 3 {
            Face::Right
        } else if n == 4 {
            Face::Back
        } else {
            Face::Down
        }
    }

    /// The face on the far side of the cube.
    pub open spec fn opposite(self) -> Face {
        match self {
            Face::Up => Face::Down,
            Face::Down => Face::Up,
            Face::Front => Face::Back,
            Face::Back => Face::Front,
            Face::Left => Face::Right,
            Face::Right => Face::Left,
        }
    }

    /// The colour that every facelet of this face carries on a solved cube:
    /// Up 1, Left 2, Front 3, Right 4, Back 5, Down 6.
    pub fn color(self) -> (c: i32)
        ensures
            c == self.ordinal() + 1,
    {
        match self {
            Face::Up => 1,
            Face::Left => 2,
            Face::Front => 3,
            Face::Right => 4,
            Face::Back => 5,
            Face::Down => 6,
        }
    }
}

/// The sense of a quarter turn, as seen when looking at the twisted face.
#[derive(Clone, Copy, Debug, PartialEq, Eq, Structural)]
pub enum Direction {
    Clockwise,
    CounterClockwise,
}

impl Direction {
    /// How many clockwise quarter turns make up one twist in this direction.
    pub open spec fn quarter_turns_spec(self) -> nat {
        match self {
            Direction::Clockwise => 1,
            Direction::CounterClockwise => 3,
        }
    }

    /// A counter-clockwise twist is carried out as three clockwise ones.
    pub fn quarter_turns(self) -> (n: u8)
        ensures
            n == self.quarter_turns_spec(),
    {
        match self {
            Direction::Clockwise => 1,
            Direction::CounterClockwise => 3,
        }
    }
}

} // verus!
