//! The game controller: wraps the model with the game-over and paused flags
//! and gates when the model advances. A tick either fully applies one game
//! step or, when paused or over, is a pure no-op.

use vstd::prelude::*;

use crate::food::contains_pos;
use crate::food::first_match;
use crate::grid::Direction;
use crate::grid::in_grid;
use crate::grid::MAX_FOOD;
use crate::grid::opposite;
use crate::grid::spec_opposite;
use crate::model::Model;
use crate::model::food_refilled;
use crate::model::self_hit;
use crate::snake::moved_segments;

verus! {

/// The heading after a direction request while heading `c`: the request `d`
/// is silently ignored exactly when it is the opposite of `c`.
pub open spec fn dir_after_request(c: Direction, d: Direction) -> Direction {
    if d == spec_opposite(c) {
        c
    } else {
        d
    }
}

/// A direction request changes the heading only when it is not the opposite
/// of the current heading, and then the heading becomes exactly the request.
pub proof fn lemma_heading_change(c: Direction, d: Direction)
    ensures
        dir_after_request(c, d) != c ==> d != spec_opposite(c),
        d != spec_opposite(c) ==> dir_after_request(c, d) == d,
{
}

/// How one running (neither paused nor over) tick takes `pre` to `post`:
/// the snake moves one step; the game is over exactly when the moved head
/// left the grid or hit a non-head segment; even on a fatal tick, if the
/// moved head lies on a food entry, the first such entry is consumed, the
/// snake grows at the tail, and the food is refilled to `MAX_FOOD`.
pub open spec fn tick_post(pre: SimpleSnake, post: SimpleSnake) -> bool {
    let moved = moved_segments(pre.model.snake.segments@, pre.model.snake.dir);
    let head = moved[0];
    &&& post.game_over == (!in_grid(head) || self_hit(moved))
    &&& post.is_paused == pre.is_paused
    &&& post.model.snake.dir == pre.model.snake.dir
    &&& if contains_pos(pre.model.food.locs@, head) {
        &&& post.model.snake.segments@ == moved.push(moved.last())
        &&& food_refilled(
            pre.model.food.locs@.remove(first_match(pre.model.food.locs@, head)),
            post.model.food.locs@,
        )
    } else {
        &&& post.model.snake.segments@ == moved
        &&& post.model.food.locs@ == pre.model.food.locs@
    }
}

pub struct SimpleSnake {
    pub model: Model,
    pub game_over: bool,
    pub is_paused: bool,
}

impl SimpleSnake {
    /// The controller's invariant: the food list never exceeds `MAX_FOOD`,
    /// and while the game is not over every snake segment lies on the grid.
    pub open spec fn inv(self) -> bool {
        &&& self.model.food.locs@.len() <= MAX_FOOD
        &&& !self.game_over ==> forall|i: int|
            0 <= i < self.model.snake.segments@.len()
                ==> in_grid(#[trigger] self.model.snake.segments@[i])
    }

    /// Whether the snake has been seeded: every collision and movement
    /// operation needs at least a head.
    pub open spec fn started(self) -> bool {
        self.model.snake.segments@.len() >= 1
    }

    pub fn new() -> (s: SimpleSnake)
        ensures
            s.inv(),
            !s.game_over,
            !s.is_paused,
            s.model.food.locs@ == Seq::<crate::grid::Position>::empty(),
            s.model.snake.segments@ == Seq::<crate::grid::Position>::empty(),
            s.model.snake.dir == Direction::Left,
    {
        let game_over: bool = false;
        let is_paused: bool = false;

        let model: Model = Model::new();

        SimpleSnake { model, game_over, is_paused }
    }

    /// Seeds the initial food (up to `MAX_FOOD`) and one snake segment; call
    /// exactly once before the first tick.
    pub fn on_start(&mut self)
        requires
            old(self).inv(),
        ensures
            final(self).inv(),
            final(self).started(),
            final(self).game_over == old(self).game_over,
            final(self).is_paused == old(self).is_paused,
            final(self).model.snake.dir == old(self).model.snake.dir,
            food_refilled(old(self).model.food.locs@, final(self).model.food.locs@),
            final(self).model.snake.segments@.len()
                == old(self).model.snake.segments@.len() + 1,
            final(self).model.snake.segments@.drop_last()
                == old(self).model.snake.segments@,
            crate::grid::spawn_in_range(final(self).model.snake.segments@.last()),
    {
        self.model.add_random_food();
        self.model.add_snake_start();
        proof {
            let s = self.model.snake.segments@;
            let pre = old(self).model.snake.segments@;
            if !self.game_over {
                assert forall|i: int| 0 <= i < s.len() implies in_grid(#[trigger] s[i]) by {
                    if i < s.len() - 1 {
                        assert(s[i] == s.drop_last()[i]);
                        assert(s.drop_last() == pre);
                        assert(in_grid(pre[i]));
                    } else {
                        assert(s[i] == s.last());
                    }
                }
            }
        }
    }

    /// One tick: if running, the per-tick protocol (move, then the two fatal
    /// checks, then food consumption and refill); if paused or over, a pure
    /// no-op.
    pub fn update(&mut self)
        requires
            old(self).inv(),
            old(self).started(),
        ensures
            final(self).inv(),
            final(self).started(),
            final(self).is_paused == old(self).is_paused,
            final(self).model.snake.dir == old(self).model.snake.dir,
            old(self).is_paused || old(self).game_over ==> *final(self) == *old(self),
            !old(self).is_paused && !old(self).game_over
                ==> tick_post(*old(self), *final(self)),
    {
        if !self.is_paused && !self.game_over {
            self.model.update();
            if self.model.out_of_bounds() || self.model.self_collision() {
                self.game_over = true;
            }
            if self.model.food_collision() {
                self.model.snake.grow();
                self.model.add_random_food();
            }
        }
    }

    /// Requests a new heading; the request is silently ignored when it is
    /// the exact opposite of the current heading. Nothing else changes, and
    /// the change shows only on the next tick.
    pub fn set_direction(&mut self, d: Direction)
        ensures
            final(self).model.snake.dir
                == dir_after_request(old(self).model.snake.dir, d),
            final(self).model.snake.segments == old(self).model.snake.segments,
            final(self).model.food == old(self).model.food,
            final(self).game_over == old(self).game_over,
            final(self).is_paused == old(self).is_paused,
    {
        let cur: Direction = self.model.snake.dir;
        if d != opposite(cur) {
            self.model.snake.dir = d;
        }
    }

    /// Flips between running and paused; a no-op once the game is over.
    pub fn toggle_pause(&mut self)
        ensures
            final(self).model == old(self).model,
            final(self).game_over == old(self).game_over,
            !old(self).game_over ==> final(self).is_paused == !old(self).is_paused,
            old(self).game_over ==> final(self).is_paused == old(self).is_paused,
    {
        if !self.game_over {
            self.is_paused = !self.is_paused;
        }
    }
}

} // verus!
