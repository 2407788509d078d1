//! Food: the active food positions, front to back in spawn order.

use vstd::prelude::*;

use crate::grid::Position;

verus! {

/// Whether `p` occurs anywhere in `s`.
pub open spec fn contains_pos(s: Seq<Position>, p: Position) -> bool {
    exists|i: int| 0 <= i < s.len() && s[i] == p
}

/// The index of the first occurrence of `p` in `s`; equals `s.len()` when
/// `p` does not occur.
pub open spec fn first_match(s: Seq<Position>, p: Position) -> int
    decreases s.len(),
{
    if s.len() == 0 {
        0
    } else if s[0] == p {
        0
    } else {
        1 + first_match(s.subrange(1, s.len() as int), p)
    }
}

pub struct Food {
    pub locs: Vec<Position>,
}

impl Food {
    pub fn new() -> (f: Food)
        ensures
            f.locs@ == Seq::<Position>::empty(),
    {
        let locs: Vec<Position> = vec![];

        Food { locs }
    }
}

} // verus!
