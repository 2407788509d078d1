//! The snake: an ordered sequence of occupied cells, front = head,
//! back = tail, plus the current travel direction.

use vstd::prelude::*;

use std::collections::VecDeque;

use crate::grid::Direction;
use crate::grid::Position;
use crate::grid::step_pos;

verus! {

/// The segments after one movement step: the stepped head in front, then the
/// old segments with the tail dropped. Meaningful only for `s.len() >= 1`.
pub open spec fn moved_segments(s: Seq<Position>, d: Direction) -> Seq<Position> {
    seq![step_pos(s[0], d)] + s.drop_last()
}

pub struct Snake {
    pub dir: Direction,
    pub segments: VecDeque<Position>,
}

impl Snake {
    pub fn new() -> (s: Snake)
        ensures
            s.dir == Direction::Left,
            s.segments@ == Seq::<Position>::empty(),
    {
        let dir: Direction = Direction::Left;
        let segments: VecDeque<Position> = VecDeque::new();

        Snake { dir, segments }
    }

    /// One movement step: a new head one cell along the current direction is
    /// pushed to the front and the tail is dropped, so the length never
    /// changes.
    pub fn update(&mut self)
        requires
            old(self).segments@.len() >= 1,
            i32::MIN < old(self).segments@[0].x < i32::MAX,
            i32::MIN < old(self).segments@[0].y < i32::MAX,
        ensures
            final(self).dir == old(self).dir,
            final(self).segments@ == moved_segments(old(self).segments@, old(self).dir),
            final(self).segments@.len() == old(self).segments@.len(),
    {
        let mut new_head: Position = self.segments[0];
        match self.dir {
            Direction::Down => new_head.y = new_head.y + 1,
            Direction::Up => new_head.y = new_head.y - 1,
            Direction::Left => new_head.x = new_head.x - 1,
            Direction::Right => new_head.x = new_head.x + 1,
        }
        self.segments.pop_back();
        self.segments.push_front(new_head);
    }

    /// Growth by one: the tail cell is duplicated at the back, so every
    /// other segment and the direction stay as they were and the length
    /// increases by exactly 1.
    pub fn grow(&mut self)
        requires
            old(self).segments@.len() >= 1,
        ensures
            final(self).dir == old(self).dir,
            final(self).segments@ == old(self).segments@.push(old(self).segments@.last()),
            final(self).segments@.len() == old(self).segments@.len() + 1,
    {
        let new_tail: Position = self.segments[self.segments.len() - 1];
        self.segments.push_back(new_tail);
    }
}

} // verus!
