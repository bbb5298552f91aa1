//! The head of the snake: how the arrow keys steer it and how it moves.

use vstd::prelude::*;
use crate::arena::{representable, step, Position};
use crate::direction::Direction;

verus! {

/// The head of the snake, which faces in one direction at any time.
#[derive(Clone, Copy, Debug, PartialEq, Eq, Structural)]
pub struct SnakeHead {
    pub direction: Direction,
}

/// Which of the four arrow keys are held down at one moment.
#[derive(Clone, Copy, Debug, PartialEq, Eq, Structural)]
pub struct ArrowKeys {
    pub left: bool,
    pub right: bool,
    pub up: bool,
    pub down: bool,
}

impl ArrowKeys {
    /// Whether the key that belongs to direction `d` is held down.
    pub open spec fn held(&self, d: Direction) -> bool {
        match d {
            Direction::Left => self.left,
            Direction::Right => self.right,
            Direction::Up => self.up,
            Direction::Down => self.down,
        }
    }

    /// The direction that the keys ask for. When several keys are held down,
    /// left wins over down, down over up, and up over right. When none is,
    /// the keys ask for nothing.
    pub open spec fn spec_requested(&self) -> Option<Direction> {
        if self.left {
            Some(Direction::Left)
        } else if self.down {
            Some(Direction::Down)
        } else if self.up {
            Some(Direction::Up)
        } else if self.right {
            Some(Direction::Right)
        } else {
            None
        }
    }

    /// Returns the direction that the keys ask for, if any key is held down.
    #[verifier::when_used_as_spec(spec_requested)]
    pub fn requested(&self) -> (r: Option<Direction>)
        ensures
            r == self.spec_requested(),
    {
        if self.left {
            Some(Direction::Left)
        } else if self.down {
            Some(Direction::Down)
        } else if self.up {
            Some(Direction::Up)
        } else if self.right {
            Some(Direction::Right)
        } else {
            None
        }
    }
}

/// The place of a direction in the order in which the keys are looked at:
/// the smaller the rank, the more the key counts.
pub open spec fn rank(d: Direction) -> int {
    match d {
        Direction::Left => 0,
        Direction::Down => 1,
        Direction::Up => 2,
        Direction::Right => 3,
    }
}

/// The keys ask for a direction exactly when some key is held down, and then
/// for the direction of the held key that counts most.
pub proof fn requested_is_first_held(keys: ArrowKeys)
    ensures
        keys.requested() matches Some(d) ==> keys.held(d) && forall|e: Direction|
            keys.held(e) ==> rank(d) <= rank(e),
        keys.requested() is None <==> forall|e: Direction| !keys.held(e),
{
    assert(keys.held(Direction::Left) == keys.left);
    assert(keys.held(Direction::Down) == keys.down);
    assert(keys.held(Direction::Up) == keys.up);
    assert(keys.held(Direction::Right) == keys.right);
}

/// The direction that the head faces after the keys were read while it faced
/// `current`: the direction that the keys ask for, or `current` where they
/// ask for nothing or for a reversal.
pub open spec fn steer(current: Direction, keys: ArrowKeys) -> Direction {
    let candidate = match keys.requested() {
        Some(d) => d,
        None => current,
    };
    if candidate == current.opposite() {
        current
    } else {
        candidate
    }
}

/// Steering never turns the head round: whatever keys are held down, the new
/// direction is not the opposite of the old one.
pub proof fn steer_never_reverses(current: Direction, keys: ArrowKeys)
    ensures
        steer(current, keys) != current.opposite(),
{
}

/// The head keeps its direction where the keys ask for nothing, and takes the
/// direction that they ask for unless that is the opposite of its own.
pub proof fn steer_follows_request(current: Direction, keys: ArrowKeys)
    ensures
        keys.requested() is None ==> steer(current, keys) == current,
        keys.requested() == Some(current.opposite()) ==> steer(current, keys) == current,
        keys.requested() matches Some(d) ==> d != current.opposite() ==> steer(current, keys) == d,
{
}

/// Steering and then stepping never takes the head to the cell behind it: the
/// cell one step against the direction that it faced before the keys were read.
pub proof fn steered_step_never_backs_up(p: (int, int), current: Direction, keys: ArrowKeys)
    ensures
        step(p, steer(current, keys)) != step(p, current.opposite()),
{
}

/// Creates the head as it is when a game starts: on the cell `(3, 3)`, facing
/// up.
pub fn spawn_snake() -> (r: (SnakeHead, Position))
    ensures
        r.0.direction == Direction::Up,
        r.1@ == (3int, 3int),
{
    (SnakeHead { direction: Direction::Up }, Position { x: 3, y: 3 })
}

/// Reads the arrow keys and turns the head towards the direction that they ask
/// for, unless that would turn it round.
pub fn snake_movement_input(snakehead: &mut SnakeHead, keyboard_input: &ArrowKeys)
    ensures
        final(snakehead).direction == steer(old(snakehead).direction, *keyboard_input),
        final(snakehead).direction != old(snakehead).direction.opposite(),
{
    let direction = match keyboard_input.requested() {
        Some(d) => d,
        None => snakehead.direction,
    };
    if direction != snakehead.direction.opposite() {
        snakehead.direction = direction;
    }
}

/// Moves the head by one cell in the direction that it faces. The caller sees
/// to it that the new coordinates fit; `Position::can_step` tells.
pub fn snake_movement(snakehead_position: &mut Position, snakehead: &SnakeHead)
    requires
        representable(step(old(snakehead_position)@, snakehead.direction)),
    ensures
        final(snakehead_position)@ == step(old(snakehead_position)@, snakehead.direction),
{
    match snakehead.direction {
        Direction::Left => {
            snakehead_position.x += -1;
        },
        Direction::Right => {
            snakehead_position.x += 1;
        },
        Direction::Up => {
            snakehead_position.y += 1;
        },
        Direction::Down => {
            snakehead_position.y += -1;
        },
    }
}

} // verus!
