//! Where food appears: on a cell of the arena picked by two uniform draws.

use vstd::prelude::*;
use crate::arena::{in_arena, Position, ARENA_HEIGHT, ARENA_WIDTH};

verus! {

/// The number of values that a draw can take. A draw `u` stands for the
/// fraction `u / DRAWS`, which lies in `[0, 1)`.
pub const DRAWS: u64 = 0x1_0000_0000;

/// The index of the cell that a draw picks among `extent` cells in a row: the
/// fraction that the draw stands for, times `extent`, rounded down.
pub open spec fn cell(draw: u32, extent: int) -> int {
    draw * extent / (DRAWS as int)
}

/// The coordinates of the food that the draws `u1` and `u2` pick.
pub open spec fn food_cell(u1: u32, u2: u32) -> (int, int) {
    (cell(u1, ARENA_WIDTH as int), cell(u2, ARENA_HEIGHT as int))
}

/// A draw picks one of the `extent` cells.
pub proof fn cell_in_range(draw: u32, extent: int)
    requires
        0 < extent,
    ensures
        0 <= cell(draw, extent) < extent,
{
    assert(0 <= draw * extent < extent * DRAWS) by (nonlinear_arith)
        requires
            0 <= draw < DRAWS,
            0 < extent,
    ;
    assert(extent * DRAWS / (DRAWS as int) == extent) by (nonlinear_arith)
        requires
            DRAWS > 0,
    ;
}

/// A larger draw never picks an earlier cell.
pub proof fn cell_is_monotone(draw: u32, other: u32, extent: int)
    requires
        0 < extent,
        draw <= other,
    ensures
        cell(draw, extent) <= cell(other, extent),
{
    assert(draw * extent <= other * extent) by (nonlinear_arith)
        requires
            draw <= other,
            0 < extent,
    ;
}

/// Every cell of the arena is picked by some pair of draws.
pub proof fn every_cell_is_drawn(p: (int, int))
    requires
        in_arena(p),
    ensures
        exists|u1: u32, u2: u32| food_cell(u1, u2) == p,
{
    let u1 = ((p.0 * DRAWS + ARENA_WIDTH - 1) / (ARENA_WIDTH as int)) as u32;
    let u2 = ((p.1 * DRAWS + ARENA_HEIGHT - 1) / (ARENA_HEIGHT as int)) as u32;
    assert(food_cell(u1, u2) == p);
}

/// Returns the cell of the arena that the draws `u1` and `u2` pick for a new
/// piece of food: column `floor(u1 / 2^32 * ARENA_WIDTH)` and row
/// `floor(u2 / 2^32 * ARENA_HEIGHT)`.
pub fn food_position(u1: u32, u2: u32) -> (p: Position)
    ensures
        p@ == food_cell(u1, u2),
        in_arena(p@),
{
    proof {
        cell_in_range(u1, ARENA_WIDTH as int);
        cell_in_range(u2, ARENA_HEIGHT as int);
    }
    let x: u64 = (u1 as u64) * (ARENA_WIDTH as u64) / DRAWS;
    let y: u64 = (u2 as u64) * (ARENA_HEIGHT as u64) / DRAWS;
    Position { x: x as i32, y: y as i32 }
}

/// Draws a `u32` with `rand::random`, which takes 32 bits from the generator
/// of the current thread. The value depends on chance, so nothing is claimed
/// of it. The generator is seeded by the system on its first use in a thread,
/// and `rand` panics there if the system has no entropy to give.
#[verifier::external_body]
fn uniform_draw() -> (u: u32) {
    rand::random::<u32>()
}

/// Picks the cell for a new piece of food with two draws of its own. Food may
/// appear on a cell that already holds food or the snake; whatever is drawn,
/// the cell lies in the arena.
pub fn food_spawner() -> (p: Position)
    ensures
        in_arena(p@),
        exists|u1: u32, u2: u32| p@ == food_cell(u1, u2),
{
    let u1: u32 = uniform_draw();
    let u2: u32 = uniform_draw();
    food_position(u1, u2)
}

} // verus!
