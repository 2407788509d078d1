//! The grid: coordinate constants, positions and travel directions.
//!
//! The playfield is a pixel scene divided into square cells; cells are
//! addressed by 0-based column and row indices, inclusive up to
//! (`MAX_X`, `MAX_Y`). Coordinates are signed so that one step past the low
//! edge is a representable, checkable position rather than an underflow.

use vstd::prelude::*;

verus! {

pub const SCENE_RANGE_X: i32 = 1024;
pub const SCENE_RANGE_Y: i32 = 768;
pub const HALF_SPRITE_SIZE: i32 = 5;
pub const SPRITE_SIZE: i32 = 2 * HALF_SPRITE_SIZE;
pub const MIN_X: i32 = 0;

/// Highest column index: `SCENE_RANGE_X / SPRITE_SIZE - 1` = 101.
pub const MAX_X: i32 = 101;

pub const MIN_Y: i32 = 0;

/// Highest row index: `SCENE_RANGE_Y / SPRITE_SIZE - 1` = 75.
pub const MAX_Y: i32 = 75;

pub const MAX_FOOD: usize = 3;

#[derive(Clone, Copy, PartialEq, Eq, Structural, Debug)]
pub enum Direction {
    Right,
    Left,
    Up,
    Down,
}

#[derive(Clone, Copy, PartialEq, Eq, Structural, Debug)]
pub struct Position {
    pub x: i32,
    pub y: i32,
}

/// The direction pointing exactly the other way: Left and Right are mutually
/// opposite, as are Up and Down.
pub open spec fn spec_opposite(d: Direction) -> Direction {
    match d {
        Direction::Right => Direction::Left,
        Direction::Left => Direction::Right,
        Direction::Up => Direction::Down,
        Direction::Down => Direction::Up,
    }
}

#[verifier::when_used_as_spec(spec_opposite)]
pub fn opposite(d: Direction) -> (r: Direction)
    ensures
        r == spec_opposite(d),
{
    match d {
        Direction::Right => Direction::Left,
        Direction::Left => Direction::Right,
        Direction::Up => Direction::Down,
        Direction::Down => Direction::Up,
    }
}

/// One unit step from `p` along `d`: the y axis grows downward, so Up
/// decrements y and Down increments it.
pub open spec fn step_pos(p: Position, d: Direction) -> Position {
    match d {
        Direction::Right => Position { x: (p.x + 1) as i32, y: p.y },
        Direction::Left => Position { x: (p.x - 1) as i32, y: p.y },
        Direction::Up => Position { x: p.x, y: (p.y - 1) as i32 },
        Direction::Down => Position { x: p.x, y: (p.y + 1) as i32 },
    }
}

/// A cell of the playfield: both coordinates within the inclusive bounds.
pub open spec fn in_grid(p: Position) -> bool {
    MIN_X <= p.x <= MAX_X && MIN_Y <= p.y <= MAX_Y
}

/// The half-open range random spawns are drawn from; a subset of the grid.
pub open spec fn spawn_in_range(p: Position) -> bool {
    MIN_X <= p.x < MAX_X && MIN_Y <= p.y < MAX_Y
}

} // verus!
