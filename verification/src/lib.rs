use vstd::prelude::*;

pub mod direction;
pub mod grid;
pub mod food;
pub mod game;
pub mod snake;

verus! {

/// Side length of one grid cell; every entity position is a multiple of it.
pub const CELL_SIZE: i64 = 10;

/// Width of the visible playing field.
pub const WIDTH: i64 = 640;

/// Height of the visible playing field.
pub const HEIGHT: i64 = 480;

/// Minimum number of elapsed milliseconds between two simulation ticks.
pub const TICK_INTERVAL_MILLIS: u128 = 100;

} // verus!
