use vstd::prelude::*;

use crate::direction::Direction;
use crate::food::{food_color, Food};
use crate::grid::{adjacent, offset_x, offset_y, origin, step_spec, Position};
use crate::snake::Snake;
use crate::{CELL_SIZE, HEIGHT, TICK_INTERVAL_MILLIS, WIDTH};

verus! {

/// Both coordinates leave room for the two cell-sized steps one tick can
/// take (one from growing, one from the unconditional advance).
pub open spec fn in_tick_range(p: Position) -> bool {
    &&& i64::MIN + 2 * CELL_SIZE <= p.x <= i64::MAX - 2 * CELL_SIZE
    &&& i64::MIN + 2 * CELL_SIZE <= p.y <= i64::MAX - 2 * CELL_SIZE
}

/// The game state a host drives: the snake and the current piece of food.
/// The host owns the clock; it calls `tick` once each time `should_tick`
/// says the interval has elapsed.
pub struct Game {
    pub snake: Snake,
    pub food: Food,
}

/// One simulation tick is due exactly when at least the fixed interval has
/// elapsed since the last one.
pub fn should_tick(elapsed_millis: u128) -> (b: bool)
    ensures
        b == (elapsed_millis >= TICK_INTERVAL_MILLIS),
{
    elapsed_millis >= TICK_INTERVAL_MILLIS
}

impl Game {
    /// The whole state is well-formed when the snake is.
    pub open spec fn wf(self) -> bool {
        self.snake.wf()
    }

    /// A fresh game: a length-one snake at the origin heading right, and a
    /// randomly placed piece of food.
    pub fn new() -> (g: Game)
        ensures
            g.wf(),
            g.snake.head == origin(),
            g.snake.direction == Direction::Right,
            g.snake.path@ =~= seq![origin()],
            g.food.position.x % CELL_SIZE == 0,
            g.food.position.y % CELL_SIZE == 0,
            -CELL_SIZE <= g.food.position.x <= WIDTH,
            -CELL_SIZE <= g.food.position.y <= HEIGHT,
            g.food.color == food_color(),
    {
        Game { snake: Snake::init(), food: Food::spawn() }
    }

    /// One discrete simulation step. If the head sits on the food, the snake
    /// first grows and a new food is spawned; then the snake advances
    /// unconditionally — so an eating tick moves the head two cells and
    /// lengthens the body by one, while an ordinary tick moves the head one
    /// cell and leaves the food alone.
    pub fn tick(&mut self)
        requires
            old(self).wf(),
            in_tick_range(old(self).snake.head),
        ensures
            final(self).wf(),
            final(self).snake.direction == old(self).snake.direction,
            old(self).snake.head != old(self).food.position ==> {
                &&& final(self).snake.head.x as int == old(self).snake.head.x + offset_x(
                    old(self).snake.direction,
                )
                &&& final(self).snake.head.y as int == old(self).snake.head.y + offset_y(
                    old(self).snake.direction,
                )
                &&& final(self).snake.path@.len() == old(self).snake.path@.len()
                &&& final(self).snake.path@ =~= seq![final(self).snake.head]
                    + old(self).snake.path@.drop_last()
                &&& final(self).food == old(self).food
            },
            old(self).snake.head == old(self).food.position ==> {
                &&& final(self).snake.head.x as int == old(self).snake.head.x + 2 * offset_x(
                    old(self).snake.direction,
                )
                &&& final(self).snake.head.y as int == old(self).snake.head.y + 2 * offset_y(
                    old(self).snake.direction,
                )
                &&& final(self).snake.path@.len() == old(self).snake.path@.len() + 1
                &&& final(self).snake.path@ =~= seq![
                    final(self).snake.head,
                    step_spec(old(self).snake.head, old(self).snake.direction),
                ] + old(self).snake.path@.drop_last()
                &&& final(self).food.position.x % CELL_SIZE == 0
                &&& final(self).food.position.y % CELL_SIZE == 0
                &&& -CELL_SIZE <= final(self).food.position.x <= WIDTH
                &&& -CELL_SIZE <= final(self).food.position.y <= HEIGHT
                &&& final(self).food.color == food_color()
            },
    {
        if self.snake.head == self.food.position {
            self.snake.grow();
            self.food = Food::spawn();
        }
        self.snake.advance();
    }

    /// Forward a key press that asks for a new heading: the snake's
    /// no-reversal rule decides; nothing else changes.
    pub fn handle_key(&mut self, proposed: Direction)
        ensures
            final(self).snake.head == old(self).snake.head,
            final(self).snake.path@ == old(self).snake.path@,
            final(self).food == old(self).food,
            final(self).snake.direction == if old(self).snake.direction.accepts(proposed) {
                proposed
            } else {
                old(self).snake.direction
            },
            old(self).wf() ==> final(self).wf(),
    {
        self.snake.request_direction(proposed);
    }

    /// Executable check of `tick`'s precondition, for callers outside the
    /// verified world: the state is well-formed and the head leaves room for
    /// the two steps a tick can take.
    pub fn tick_allowed(&self) -> (b: bool)
        ensures
            b == (self.wf() && in_tick_range(self.snake.head)),
    {
        if self.snake.path.len() < 1 {
            return false;
        }
        if !(self.snake.head == self.snake.path[0]) {
            return false;
        }
        let h = self.snake.head;
        if !(i64::MIN + 2 * CELL_SIZE <= h.x && h.x <= i64::MAX - 2 * CELL_SIZE
            && i64::MIN + 2 * CELL_SIZE <= h.y && h.y <= i64::MAX - 2 * CELL_SIZE) {
            return false;
        }
        let n: usize = self.snake.path.len();
        let mut i: usize = 0;
        while i < n - 1
            invariant
                n == self.snake.path@.len(),
                1 <= n,
                0 <= i <= n,
                forall|j: int|
                    0 <= j < i ==> adjacent(#[trigger] self.snake.path@[j], self.snake.path@[j + 1]),
            decreases n - i,
        {
            let a = self.snake.path[i];
            let b = self.snake.path[i + 1];
            let same_col = a.x == b.x && ((a.y as i128) - (b.y as i128) == CELL_SIZE as i128 || (
            b.y as i128) - (a.y as i128) == CELL_SIZE as i128);
            let same_row = a.y == b.y && ((a.x as i128) - (b.x as i128) == CELL_SIZE as i128 || (
            b.x as i128) - (a.x as i128) == CELL_SIZE as i128);
            if !(same_col || same_row) {
                return false;
            }
            i = i + 1;
        }
        true
    }
}

} // verus!
