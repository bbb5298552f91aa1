//! The rules of a small grid snake game: the compass directions and their
//! opposites, the steering of the head from the arrow keys, the unit step of
//! the head on the grid, and the placement of food on a random cell of the
//! arena.
//!
//! Every function works on plain values that the caller owns; drawing the
//! arena, polling the keyboard and keeping time are left to the program
//! around this library.

pub mod arena;
pub mod direction;
pub mod food;
pub mod snake;

pub use arena::{Position, ARENA_HEIGHT, ARENA_WIDTH};
pub use direction::Direction;
pub use food::{food_position, food_spawner};
pub use snake::{snake_movement, snake_movement_input, spawn_snake, ArrowKeys, SnakeHead};
