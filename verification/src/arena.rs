//! The arena and the positions on its grid.

use vstd::prelude::*;
use vstd::math::abs;
use crate::direction::Direction;

verus! {

/// The number of cells in a row of the arena.
pub const ARENA_WIDTH: u32 = 10;

/// The number of cells in a column of the arena.
pub const ARENA_HEIGHT: u32 = 10;

/// A cell of the grid. The arena holds the cells with `0 <= x < ARENA_WIDTH`
/// and `0 <= y < ARENA_HEIGHT`; a position is free to lie outside of it.
#[derive(Clone, Copy, Debug, PartialEq, Eq, Structural)]
pub struct Position {
    pub x: i32,
    pub y: i32,
}

impl View for Position {
    type V = (int, int);

    /// The coordinates `(x, y)` as mathematical integers.
    open spec fn view(&self) -> (int, int) {
        (self.x as int, self.y as int)
    }
}

/// Whether the coordinates `p` name a cell of the arena.
pub open spec fn in_arena(p: (int, int)) -> bool {
    0 <= p.0 < ARENA_WIDTH && 0 <= p.1 < ARENA_HEIGHT
}

/// Whether both coordinates of `p` can be held by a `Position`.
pub open spec fn representable(p: (int, int)) -> bool {
    i32::MIN <= p.0 <= i32::MAX && i32::MIN <= p.1 <= i32::MAX
}

/// The coordinates reached from `p` by one step in direction `d`: one to the
/// left or right along `x`, or one up or down along `y`.
pub open spec fn step(p: (int, int), d: Direction) -> (int, int) {
    match d {
        Direction::Left => (p.0 - 1, p.1),
        Direction::Right => (p.0 + 1, p.1),
        Direction::Up => (p.0, p.1 + 1),
        Direction::Down => (p.0, p.1 - 1),
    }
}

/// A step moves by the direction's change of coordinates, so by exactly one
/// cell along exactly one axis.
pub proof fn step_adds_delta(p: (int, int), d: Direction)
    ensures
        step(p, d) == (p.0 + d.delta().0, p.1 + d.delta().1),
        abs(step(p, d).0 - p.0) + abs(step(p, d).1 - p.1) == 1,
{
}

/// A step and then a step in the opposite direction lead back to the start.
pub proof fn step_back_returns(p: (int, int), d: Direction)
    ensures
        step(step(p, d), d.opposite()) == p,
{
}

impl Position {
    /// Tells whether a step in direction `d` leads to coordinates that a
    /// `Position` can hold, which it does unless the coordinate that changes
    /// already stands at the end of the `i32` range.
    pub fn can_step(&self, d: Direction) -> (ok: bool)
        ensures
            ok == representable(step(self@, d)),
    {
        match d {
            Direction::Left => self.x > i32::MIN,
            Direction::Right => self.x < i32::MAX,
            Direction::Up => self.y < i32::MAX,
            Direction::Down => self.y > i32::MIN,
        }
    }
}

} // verus!
