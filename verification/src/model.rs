//! The model: one snake and one food list, with the per-tick collision and
//! spawn rules.

use vstd::prelude::*;

use crate::food::Food;
use crate::food::contains_pos;
use crate::food::first_match;
use crate::grid::MAX_FOOD;
use crate::grid::MAX_X;
use crate::grid::MAX_Y;
use crate::grid::MIN_X;
use crate::grid::MIN_Y;
use crate::grid::Position;
use crate::grid::in_grid;
use crate::grid::spawn_in_range;
use crate::rng::random_position;
use crate::snake::Snake;

verus! {

/// Whether some non-head segment occupies the same cell as the head.
/// Meaningful only for `s.len() >= 1`; trivially false at length 1.
pub open spec fn self_hit(s: Seq<Position>) -> bool {
    exists|i: int| 1 <= i < s.len() && #[trigger] s[i] == s[0]
}

/// The food list after a refill on top of `base`: exactly `MAX_FOOD` entries,
/// `base` kept unchanged in front, every appended entry drawn from the spawn
/// rectangle.
pub open spec fn food_refilled(base: Seq<Position>, post: Seq<Position>) -> bool {
    &&& post.len() == MAX_FOOD
    &&& post.subrange(0, base.len() as int) == base
    &&& forall|i: int| base.len() <= i < post.len() ==> spawn_in_range(#[trigger] post[i])
}

proof fn lemma_first_match_at(s: Seq<Position>, p: Position, i: int)
    requires
        0 <= i < s.len(),
        s[i] == p,
        forall|j: int| 0 <= j < i ==> s[j] != p,
    ensures
        first_match(s, p) == i,
    decreases i,
{
    if i > 0 {
        let t = s.subrange(1, s.len() as int);
        assert(forall|j: int| 0 <= j < i - 1 ==> t[j] == s[j + 1]);
        lemma_first_match_at(t, p, i - 1);
    }
}

pub struct Model {
    pub food: Food,
    pub snake: Snake,
}

impl Model {
    pub fn new() -> (m: Model)
        ensures
            m.food.locs@ == Seq::<Position>::empty(),
            m.snake.segments@ == Seq::<Position>::empty(),
            m.snake.dir == crate::grid::Direction::Left,
    {
        let food: Food = Food::new();
        let snake: Snake = Snake::new();

        Model { food, snake }
    }

    /// Replenishes the food list up to exactly `MAX_FOOD` entries, each new
    /// one drawn uniformly from the spawn rectangle. Existing entries, and
    /// the snake, are untouched.
    pub fn add_random_food(&mut self)
        requires
            old(self).food.locs@.len() <= MAX_FOOD,
        ensures
            final(self).snake == old(self).snake,
            food_refilled(old(self).food.locs@, final(self).food.locs@),
    {
        while self.food.locs.len() < MAX_FOOD
            invariant
                self.snake == old(self).snake,
                self.food.locs@.len() <= MAX_FOOD,
                old(self).food.locs@.len() <= self.food.locs@.len(),
                self.food.locs@.subrange(0, old(self).food.locs@.len() as int)
                    == old(self).food.locs@,
                forall|i: int|
                    old(self).food.locs@.len() <= i < self.food.locs@.len()
                        ==> spawn_in_range(#[trigger] self.food.locs@[i]),
            decreases MAX_FOOD - self.food.locs@.len(),
        {
            let p = random_position(MIN_X, MAX_X, MIN_Y, MAX_Y);
            self.food.locs.push(p);
            proof {
                assert(self.food.locs@.subrange(0, old(self).food.locs@.len() as int)
                    =~= old(self).food.locs@);
            }
        }
    }

    /// Seeds the snake with one segment at a random cell of the spawn
    /// rectangle, appended at the back.
    pub fn add_snake_start(&mut self)
        ensures
            final(self).food == old(self).food,
            final(self).snake.dir == old(self).snake.dir,
            final(self).snake.segments@.len() == old(self).snake.segments@.len() + 1,
            final(self).snake.segments@.drop_last() == old(self).snake.segments@,
            spawn_in_range(final(self).snake.segments@.last()),
    {
        let p = random_position(MIN_X, MAX_X, MIN_Y, MAX_Y);
        self.snake.segments.push_back(p);
        proof {
            assert(self.snake.segments@.drop_last() =~= old(self).snake.segments@);
        }
    }

    /// Scans the food list for the snake's head; on the first hit, removes
    /// that entry and reports the consumption. At most one entry is consumed.
    pub fn food_collision(&mut self) -> (r: bool)
        requires
            old(self).snake.segments@.len() >= 1,
        ensures
            final(self).snake == old(self).snake,
            r == contains_pos(old(self).food.locs@, old(self).snake.segments@[0]),
            r ==> final(self).food.locs@ == old(self).food.locs@.remove(
                first_match(old(self).food.locs@, old(self).snake.segments@[0])),
            r ==> final(self).food.locs@.len() == old(self).food.locs@.len() - 1,
            !r ==> final(self).food.locs@ == old(self).food.locs@,
    {
        let snake_head: Position = self.snake.segments[0];
        // The scan is bounded by the food list itself, so consumption is
        // index-safe for any snake length.
        let mut i: usize = 0;
        while i < self.food.locs.len()
            invariant
                self.snake == old(self).snake,
                self.food.locs@ == old(self).food.locs@,
                snake_head == old(self).snake.segments@[0],
                0 <= i <= self.food.locs@.len(),
                forall|j: int| 0 <= j < i ==> self.food.locs@[j] != snake_head,
            decreases self.food.locs@.len() - i,
        {
            if self.food.locs[i] == snake_head {
                proof {
                    lemma_first_match_at(self.food.locs@, snake_head, i as int);
                }
                self.food.locs.remove(i);
                return true;
            }
            i = i + 1;
        }
        false
    }

    /// True exactly when some non-head segment occupies the head's cell.
    pub fn self_collision(&self) -> (r: bool)
        requires
            self.snake.segments@.len() >= 1,
        ensures
            r == self_hit(self.snake.segments@),
    {
        let snake_head: Position = self.snake.segments[0];
        let mut i: usize = 1;
        while i < self.snake.segments.len()
            invariant
                self.snake.segments@.len() >= 1,
                snake_head == self.snake.segments@[0],
                1 <= i <= self.snake.segments@.len(),
                forall|j: int| 1 <= j < i ==> self.snake.segments@[j] != snake_head,
            decreases self.snake.segments@.len() - i,
        {
            if self.snake.segments[i] == snake_head {
                return true;
            }
            i = i + 1;
        }
        false
    }

    /// True exactly when the head lies outside the inclusive grid bounds.
    pub fn out_of_bounds(&self) -> (r: bool)
        requires
            self.snake.segments@.len() >= 1,
        ensures
            r == !in_grid(self.snake.segments@[0]),
    {
        let snake_head: Position = self.snake.segments[0];
        snake_head.x < MIN_X || snake_head.x > MAX_X || snake_head.y < MIN_Y
            || snake_head.y > MAX_Y
    }

    /// One movement step of the snake; the food list is untouched.
    pub fn update(&mut self)
        requires
            old(self).snake.segments@.len() >= 1,
            i32::MIN < old(self).snake.segments@[0].x < i32::MAX,
            i32::MIN < old(self).snake.segments@[0].y < i32::MAX,
        ensures
            final(self).food == old(self).food,
            final(self).snake.dir == old(self).snake.dir,
            final(self).snake.segments@ == crate::snake::moved_segments(
                old(self).snake.segments@, old(self).snake.dir),
            final(self).snake.segments@.len() == old(self).snake.segments@.len(),
    {
        self.snake.update()
    }
}

} // verus!
