use vstd::prelude::*;

use crate::direction::Direction;
use crate::grid::{
    adjacent, in_step_range, lemma_step_adjacent, offset_x, offset_y, origin, step_spec, Position,
};

verus! {

/// The snake: its head, its current heading, and the ordered cells of its
/// body, head first.
pub struct Snake {
    pub head: Position,
    pub direction: Direction,
    pub path: Vec<Position>,
}

impl Snake {
    /// Structural invariant: the body is never empty, the head is its first
    /// cell, and consecutive body cells are exactly one cell apart. Nothing
    /// rules out self-intersection; the game does not check for it.
    pub open spec fn wf(self) -> bool {
        &&& self.path@.len() >= 1
        &&& self.head == self.path@[0]
        &&& forall|i: int|
            0 <= i < self.path@.len() - 1 ==> adjacent(#[trigger] self.path@[i], self.path@[i + 1])
    }

    /// A fresh snake of length one, sitting at the origin and heading right.
    pub fn init() -> (s: Snake)
        ensures
            s.wf(),
            s.head == origin(),
            s.direction == Direction::Right,
            s.path@ =~= seq![origin()],
    {
        let h = Position { x: 0, y: 0 };
        let mut path: Vec<Position> = Vec::new();
        path.push(h);
        Snake { head: h, direction: Direction::Right, path }
    }

    /// Slide the snake one cell forward in its current direction: the tail
    /// cell is dropped and the new head cell is put in front, so the body
    /// keeps its length. No bound of the playing field is checked: moving off
    /// screen is allowed.
    pub fn advance(&mut self)
        requires
            old(self).wf(),
            in_step_range(old(self).head),
        ensures
            final(self).wf(),
            final(self).direction == old(self).direction,
            final(self).head == step_spec(old(self).head, old(self).direction),
            final(self).head.x as int == old(self).head.x + offset_x(old(self).direction),
            final(self).head.y as int == old(self).head.y + offset_y(old(self).direction),
            final(self).head == final(self).path@[0],
            final(self).path@.len() == old(self).path@.len(),
            final(self).path@ =~= seq![final(self).head] + old(self).path@.drop_last(),
    {
        let new_head = self.head.step(self.direction);
        let last: usize = self.path.len() - 1;
        self.path.remove(last);
        self.head = new_head;
        self.path.insert(0, new_head);
        proof {
            lemma_step_adjacent(old(self).head, old(self).direction);
            assert(self.path@ =~= seq![new_head] + old(self).path@.drop_last());
            assert forall|i: int| 0 <= i < self.path@.len() - 1 implies adjacent(
                #[trigger] self.path@[i],
                self.path@[i + 1],
            ) by {
                if i == 0 {
                    assert(self.path@[1] == old(self).path@[0]);
                } else {
                    assert(self.path@[i] == old(self).path@[i - 1]);
                    assert(self.path@[i + 1] == old(self).path@[i]);
                }
            }
        }
    }

    /// Lengthen the snake by one: the new head cell is put in front and the
    /// tail is kept, so the body grows by exactly one cell. Called once per
    /// consumed food.
    pub fn grow(&mut self)
        requires
            old(self).wf(),
            in_step_range(old(self).head),
        ensures
            final(self).wf(),
            final(self).direction == old(self).direction,
            final(self).head == step_spec(old(self).head, old(self).direction),
            final(self).head.x as int == old(self).head.x + offset_x(old(self).direction),
            final(self).head.y as int == old(self).head.y + offset_y(old(self).direction),
            final(self).head == final(self).path@[0],
            final(self).path@.len() == old(self).path@.len() + 1,
            final(self).path@ =~= seq![final(self).head] + old(self).path@,
    {
        let new_head = self.head.step(self.direction);
        self.head = new_head;
        self.path.insert(0, new_head);
        proof {
            lemma_step_adjacent(old(self).head, old(self).direction);
            assert(self.path@ =~= seq![new_head] + old(self).path@);
            assert forall|i: int| 0 <= i < self.path@.len() - 1 implies adjacent(
                #[trigger] self.path@[i],
                self.path@[i + 1],
            ) by {
                if i == 0 {
                    assert(self.path@[1] == old(self).path@[0]);
                } else {
                    assert(self.path@[i] == old(self).path@[i - 1]);
                    assert(self.path@[i + 1] == old(self).path@[i]);
                }
            }
        }
    }

    /// Apply the no-reversal rule to a proposed heading change: the proposal
    /// overwrites the current heading exactly when it is not its exact
    /// opposite; a rejected proposal is dropped silently. Head and body never
    /// change here.
    pub fn request_direction(&mut self, proposed: Direction)
        ensures
            final(self).head == old(self).head,
            final(self).path@ == old(self).path@,
            final(self).direction == if old(self).direction.accepts(proposed) {
                proposed
            } else {
                old(self).direction
            },
            old(self).wf() ==> final(self).wf(),
    {
        if proposed != self.direction.opposite() {
            self.direction = proposed;
        }
    }
}

} // verus!
