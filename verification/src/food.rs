use vstd::prelude::*;
use rand::Rng;

use crate::grid::{lemma_snapped_bounded, snap_to_grid, snapped, Position};
use crate::{CELL_SIZE, HEIGHT, WIDTH};

verus! {

/// An opaque red-green-blue color, handed unchanged to the rasterizer.
#[derive(Clone, Copy, Debug, PartialEq, Eq, Structural)]
pub struct Color {
    pub r: u8,
    pub g: u8,
    pub b: u8,
}

/// The fixed highlight color every piece of food is drawn in.
pub open spec fn food_color() -> Color {
    Color { r: 255, g: 0, b: 0 }
}

/// A piece of food: a grid-aligned position and its fixed color.
pub struct Food {
    pub position: Position,
    pub color: Color,
}

/// Relies on rand::thread_rng and rand::Rng::gen_range: a draw from the
/// inclusive range `0..=max` lies within that range, and the range is never
/// empty for `max >= 0`.
#[verifier::external_body]
fn random_up_to(max: i64) -> (r: i64)
    requires
        max >= 0,
    ensures
        0 <= r <= max,
{
    rand::thread_rng().gen_range(0..=max)
}

impl Food {
    /// Food placed at the grid cell wherever `x` and `y` snap to; used by
    /// `spawn` and by callers that place food deterministically.
    pub fn at_raw(x: i64, y: i64) -> (f: Food)
        requires
            0 <= x <= WIDTH,
            0 <= y <= HEIGHT,
        ensures
            f.position.x as int == snapped(x as int),
            f.position.y as int == snapped(y as int),
            f.position.x % CELL_SIZE == 0,
            f.position.y % CELL_SIZE == 0,
            -CELL_SIZE <= f.position.x <= WIDTH,
            -CELL_SIZE <= f.position.y <= HEIGHT,
            f.color == food_color(),
    {
        proof {
            lemma_snapped_bounded(x as int, WIDTH as int);
            lemma_snapped_bounded(y as int, HEIGHT as int);
        }
        let px = snap_to_grid(x);
        let py = snap_to_grid(y);
        Food { position: Position { x: px, y: py }, color: Color { r: 255, g: 0, b: 0 } }
    }

    /// A fresh piece of food: each coordinate is drawn uniformly from the
    /// visible extent, then snapped to the grid. Whatever the draws were, the
    /// result is grid-aligned, within one cell of the visible area, and red.
    pub fn spawn() -> (f: Food)
        ensures
            f.position.x % CELL_SIZE == 0,
            f.position.y % CELL_SIZE == 0,
            -CELL_SIZE <= f.position.x <= WIDTH,
            -CELL_SIZE <= f.position.y <= HEIGHT,
            f.color == food_color(),
    {
        let x = random_up_to(WIDTH);
        let y = random_up_to(HEIGHT);
        Food::at_raw(x, y)
    }
}

} // verus!
