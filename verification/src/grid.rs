use vstd::prelude::*;
use vstd::arithmetic::div_mod::{
    lemma_div_pos_is_pos, lemma_fundamental_div_mod, lemma_mod_division_less_than_divisor,
    lemma_mod_multiples_basic,
};

use crate::direction::Direction;
use crate::CELL_SIZE;

verus! {

/// A point of the playing field. Entities only ever occupy grid-aligned
/// points (both coordinates multiples of the cell size), but nothing clamps a
/// position to the visible area: the snake may wander off-screen, and a
/// freshly snapped food coordinate may land one cell below zero.
#[derive(Clone, Copy, Debug, PartialEq, Eq, Structural)]
pub struct Position {
    pub x: i64,
    pub y: i64,
}

/// The point the snake starts from.
pub open spec fn origin() -> Position {
    Position { x: 0, y: 0 }
}

/// Horizontal displacement of one step in direction `d`.
pub open spec fn offset_x(d: Direction) -> int {
    match d {
        Direction::Right => CELL_SIZE as int,
        Direction::Left => -(CELL_SIZE as int),
        _ => 0,
    }
}

/// Vertical displacement of one step in direction `d`: up decreases the
/// vertical coordinate, down increases it.
pub open spec fn offset_y(d: Direction) -> int {
    match d {
        Direction::Down => CELL_SIZE as int,
        Direction::Up => -(CELL_SIZE as int),
        _ => 0,
    }
}

/// Both coordinates leave room for one more cell-sized step.
pub open spec fn in_step_range(p: Position) -> bool {
    &&& i64::MIN + CELL_SIZE <= p.x <= i64::MAX - CELL_SIZE
    &&& i64::MIN + CELL_SIZE <= p.y <= i64::MAX - CELL_SIZE
}

/// The position one cell away from `p` in direction `d`.
pub open spec fn step_spec(p: Position, d: Direction) -> Position {
    Position { x: (p.x + offset_x(d)) as i64, y: (p.y + offset_y(d)) as i64 }
}

/// Two cells are adjacent when they agree on one axis and differ by exactly
/// one cell size on the other.
pub open spec fn adjacent(a: Position, b: Position) -> bool {
    ||| (a.x == b.x && (a.y - b.y == CELL_SIZE || b.y - a.y == CELL_SIZE))
    ||| (a.y == b.y && (a.x - b.x == CELL_SIZE || b.x - a.x == CELL_SIZE))
}

/// One step always lands on a cell adjacent to where it started.
pub proof fn lemma_step_adjacent(p: Position, d: Direction)
    requires
        in_step_range(p),
    ensures
        adjacent(step_spec(p, d), p),
{
}

impl Position {
    /// The position one cell away in direction `d`.
    pub fn step(self, d: Direction) -> (r: Position)
        requires
            in_step_range(self),
        ensures
            r == step_spec(self, d),
            r.x as int == self.x + offset_x(d),
            r.y as int == self.y + offset_y(d),
    {
        match d {
            Direction::Up => Position { x: self.x, y: self.y - CELL_SIZE },
            Direction::Right => Position { x: self.x + CELL_SIZE, y: self.y },
            Direction::Down => Position { x: self.x, y: self.y + CELL_SIZE },
            Direction::Left => Position { x: self.x - CELL_SIZE, y: self.y },
        }
    }

    /// The two opposite corners of the cell whose top-left point is `self`,
    /// for handing to a rasterizer.
    pub fn cell_corners(self) -> (r: (Position, Position))
        requires
            in_step_range(self),
        ensures
            r.0 == self,
            r.1.x as int == self.x + CELL_SIZE,
            r.1.y as int == self.y + CELL_SIZE,
    {
        (self, Position { x: self.x + CELL_SIZE, y: self.y + CELL_SIZE })
    }
}

/// The snapping rule for a raw coordinate `v`: when the remainder of `v` by
/// the cell size exceeds half a cell, round up to the next multiple of the
/// cell size; otherwise subtract a full cell together with the remainder.
/// The subtracting branch lands one whole cell below the nearest lower
/// multiple, so a small raw value snaps to a negative coordinate; that is the
/// rule as given, not simple rounding to the nearest grid line.
pub open spec fn snapped(v: int) -> int {
    let c = CELL_SIZE as int;
    if v % c > c / 2 {
        v + (c - v % c)
    } else {
        v - (c + v % c)
    }
}

/// Law: for every non-negative raw coordinate `v`, the snapped coordinate is
/// a multiple of the cell size, at least one cell below zero, and at most one
/// cell above `v`.
pub proof fn lemma_snapped_aligned(v: int)
    requires
        0 <= v,
    ensures
        snapped(v) % (CELL_SIZE as int) == 0,
        -(CELL_SIZE as int) <= snapped(v) <= v + CELL_SIZE,
{
    let c = CELL_SIZE as int;
    let q = v / c;
    let m = v % c;
    lemma_fundamental_div_mod(v, c);
    lemma_mod_division_less_than_divisor(v, c);
    lemma_div_pos_is_pos(v, c);
    if m > c / 2 {
        assert(snapped(v) == c * (q + 1));
        lemma_mod_multiples_basic(q + 1, c);
    } else {
        assert(snapped(v) == c * (q - 1));
        lemma_mod_multiples_basic(q - 1, c);
    }
}

/// A raw coordinate within a grid-aligned bound snaps to a coordinate within
/// that bound.
pub proof fn lemma_snapped_bounded(v: int, bound: int)
    requires
        0 <= v <= bound,
        bound % (CELL_SIZE as int) == 0,
    ensures
        snapped(v) <= bound,
{
    let c = CELL_SIZE as int;
    let q = v / c;
    let m = v % c;
    lemma_fundamental_div_mod(v, c);
    lemma_mod_division_less_than_divisor(v, c);
    lemma_fundamental_div_mod(bound, c);
    lemma_mod_division_less_than_divisor(bound, c);
    let k = bound / c;
    if m > c / 2 {
        assert(snapped(v) == c * (q + 1));
        assert(c * q + m == v);
        assert(c * k == bound);
        assert(c * q <= bound - m);
        assert(q + 1 <= k) by {
            if q + 1 > k {
                assert(q >= k);
                assert(c * q >= c * k) by (nonlinear_arith)
                    requires
                        q >= k,
                        c > 0,
                ;
            }
        }
        assert(c * (q + 1) <= c * k) by (nonlinear_arith)
            requires
                q + 1 <= k,
                c > 0,
        ;
    } else {
        assert(snapped(v) == c * q - c);
        assert(c * q <= v);
    }
}

/// Snap a raw coordinate to the grid. The result is grid-aligned; how far it
/// can stray below zero or above a bound on `v` is stated by
/// `lemma_snapped_aligned` and `lemma_snapped_bounded`.
pub fn snap_to_grid(v: i64) -> (r: i64)
    requires
        0 <= v,
        v + CELL_SIZE <= i64::MAX,
    ensures
        r as int == snapped(v as int),
        r % CELL_SIZE == 0,
{
    proof {
        lemma_snapped_aligned(v as int);
    }
    let m: i64 = v % CELL_SIZE;
    if m > CELL_SIZE / 2 {
        v + (CELL_SIZE - m)
    } else {
        v - (CELL_SIZE + m)
    }
}

} // verus!
