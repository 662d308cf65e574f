//! Grid positions and headings.
//!
//! The board is a fixed 32x24 grid of cells; a position is an integer pair
//! and may lie outside the board (the collision check detects that).

use vstd::prelude::*;

verus! {

/// Width of the board in cells: valid x coordinates are 0 ..= 31.
pub const GRID_WIDTH: i32 = 32;

/// Height of the board in cells: valid y coordinates are 0 ..= 23.
pub const GRID_HEIGHT: i32 = 24;

/// A cell of the grid (or a point just off it, after a bad move).
#[derive(Clone, Copy, Debug, PartialEq, Eq, Structural)]
pub struct Point {
    pub x: i32,
    pub y: i32,
}

impl Point {
    /// True when the point lies on the board.
    pub open spec fn in_grid(self) -> bool {
        0 <= self.x < GRID_WIDTH && 0 <= self.y < GRID_HEIGHT
    }

    pub fn new(x: i32, y: i32) -> (r: Point)
        ensures
            r == (Point { x, y }),
    {
        Point { x, y }
    }
}

/// A direction of travel. The y axis points down, as on a screen.
#[derive(Clone, Copy, Debug, PartialEq, Eq, Structural)]
pub enum Direction {
    Up,
    Down,
    Left,
    Right,
}

impl Direction {
    /// The reverse of this heading.
    pub open spec fn opposite_spec(self) -> Direction {
        match self {
            Direction::Up => Direction::Down,
            Direction::Down => Direction::Up,
            Direction::Left => Direction::Right,
            Direction::Right => Direction::Left,
        }
    }

    /// Horizontal displacement of one step in this direction.
    pub open spec fn dx(self) -> int {
        match self {
            Direction::Up => 0,
            Direction::Down => 0,
            Direction::Left => -1,
            Direction::Right => 1,
        }
    }

    /// Vertical displacement of one step in this direction.
    pub open spec fn dy(self) -> int {
        match self {
            Direction::Up => -1,
            Direction::Down => 1,
            Direction::Left => 0,
            Direction::Right => 0,
        }
    }

    pub fn opposite(&self) -> (r: Direction)
        ensures
            r == self.opposite_spec(),
    {
        match *self {
            Direction::Up => Direction::Down,
            Direction::Down => Direction::Up,
            Direction::Left => Direction::Right,
            Direction::Right => Direction::Left,
        }
    }

    /// The unit offset of one step in this direction, as a point.
    pub fn to_point(&self) -> (r: Point)
        ensures
            r.x as int == self.dx(),
            r.y as int == self.dy(),
    {
        match *self {
            Direction::Up => Point { x: 0, y: -1 },
            Direction::Down => Point { x: 0, y: 1 },
            Direction::Left => Point { x: -1, y: 0 },
            Direction::Right => Point { x: 1, y: 0 },
        }
    }
}

/// Reversing a heading twice gives the heading back.
pub proof fn lemma_opposite_involutive(d: Direction)
    ensures
        d.opposite_spec().opposite_spec() == d,
{
}

} // verus!
