use vstd::prelude::*;

verus! {

/// The four headings a snake can travel in.
///
/// Equality is value equality: two directions are equal exactly when they are
/// the same variant.
#[derive(Clone, Copy, Debug, PartialEq, Eq, Structural)]
pub enum Direction {
    Up,
    Right,
    Down,
    Left,
}

impl Direction {
    /// The exact opposite heading.
    pub open spec fn spec_opposite(self) -> Direction {
        match self {
            Direction::Up => Direction::Down,
            Direction::Right => Direction::Left,
            Direction::Down => Direction::Up,
            Direction::Left => Direction::Right,
        }
    }

    /// A proposed heading change is accepted exactly when the proposal is not
    /// the exact opposite of the current heading; in particular keeping the
    /// current heading is accepted.
    pub open spec fn accepts(self, proposed: Direction) -> bool {
        proposed != self.spec_opposite()
    }

    #[verifier::when_used_as_spec(spec_opposite)]
    pub fn opposite(self) -> (r: Direction)
        ensures
            r == self.spec_opposite(),
    {
        match self {
            Direction::Up => Direction::Down,
            Direction::Right => Direction::Left,
            Direction::Down => Direction::Up,
            Direction::Left => Direction::Right,
        }
    }
}

/// Reversal is symmetric: a heading is the opposite of another exactly when
/// that one is its opposite, so the forbidden pairs are exactly the two
/// unordered pairs of opposite headings.
pub proof fn lemma_opposite_symmetric(d: Direction, p: Direction)
    ensures
        (p == d.spec_opposite()) == (d == p.spec_opposite()),
{
}

} // verus!
