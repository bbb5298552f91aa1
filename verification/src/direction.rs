//! Compass directions on the grid.

use vstd::prelude::*;

verus! {

/// One of the four directions in which the head can face and move.
#[derive(Clone, Copy, Debug, PartialEq, Eq, Structural)]
pub enum Direction {
    Left,
    Up,
    Right,
    Down,
}

impl Direction {
    /// The direction that points the other way: left and right are opposites,
    /// and so are up and down.
    pub open spec fn spec_opposite(self) -> Direction {
        match self {
            Direction::Left => Direction::Right,
            Direction::Right => Direction::Left,
            Direction::Up => Direction::Down,
            Direction::Down => Direction::Up,
        }
    }

    /// The change of the coordinates `(x, y)` made by one step in this
    /// direction: `x` grows to the right and `y` grows upwards.
    pub open spec fn delta(self) -> (int, int) {
        match self {
            Direction::Left => (-1, 0),
            Direction::Right => (1, 0),
            Direction::Up => (0, 1),
            Direction::Down => (0, -1),
        }
    }

    /// Returns the direction that points the other way.
    #[verifier::when_used_as_spec(spec_opposite)]
    pub fn opposite(self) -> (r: Direction)
        ensures
            r == self.spec_opposite(),
    {
        match self {
            Direction::Left => Direction::Right,
            Direction::Right => Direction::Left,
            Direction::Up => Direction::Down,
            Direction::Down => Direction::Up,
        }
    }

    /// Taking the opposite twice gives back the direction one started with.
    pub proof fn opposite_is_involution(d: Direction)
        ensures
            d.opposite().opposite() == d,
    {
    }

    /// No direction is its own opposite.
    pub proof fn opposite_differs(d: Direction)
        ensures
            d.opposite() != d,
    {
    }

    /// A step in the opposite direction undoes a step in this one: the two
    /// changes of the coordinates cancel.
    pub proof fn opposite_negates_delta(d: Direction)
        ensures
            d.opposite().delta().0 == -d.delta().0,
            d.opposite().delta().1 == -d.delta().1,
    {
    }
}

} // verus!
