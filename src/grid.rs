use vstd::prelude::*;

verus! {

/// Number of cells along each side of the square board.
pub const GRID_SIZE: usize = 30;

/// A board cell, column `x` and row `y`, counted from the top-left corner.
#[derive(Clone, Copy, PartialEq, Eq, Debug, Structural)]
pub struct Cell {
    pub x: usize,
    pub y: usize,
}

/// The four headings of the snake.
#[derive(Clone, Copy, PartialEq, Eq, Debug, Structural)]
pub enum Direction {
    Up,
    Down,
    Left,
    Right,
}

pub open spec fn in_bounds(c: Cell) -> bool {
    c.x < GRID_SIZE && c.y < GRID_SIZE
}

/// The cells that are not on the board's outer ring.
pub open spec fn in_interior(c: Cell) -> bool {
    1 <= c.x < GRID_SIZE - 1 && 1 <= c.y < GRID_SIZE - 1
}

pub open spec fn opposite(d: Direction) -> Direction {
    match d {
        Direction::Up => Direction::Down,
        Direction::Down => Direction::Up,
        Direction::Left => Direction::Right,
        Direction::Right => Direction::Left,
    }
}

/// One step from `c` towards `d`, held at the board's edge instead of crossing it.
pub open spec fn step_spec(c: Cell, d: Direction) -> Cell {
    match d {
        Direction::Up => Cell { x: c.x, y: if c.y == 0 { 0 } else { (c.y - 1) as usize } },
        Direction::Down => Cell {
            x: c.x,
            y: if c.y + 1 < GRID_SIZE { (c.y + 1) as usize } else { (GRID_SIZE - 1) as usize },
        },
        Direction::Left => Cell { x: if c.x == 0 { 0 } else { (c.x - 1) as usize }, y: c.y },
        Direction::Right => Cell {
            x: if c.x + 1 < GRID_SIZE { (c.x + 1) as usize } else { (GRID_SIZE - 1) as usize },
            y: c.y,
        },
    }
}

impl Direction {
    /// The heading that points the other way.
    pub fn reverse(self) -> (r: Direction)
        ensures
            r == opposite(self),
    {
        match self {
            Direction::Up => Direction::Down,
            Direction::Down => Direction::Up,
            Direction::Left => Direction::Right,
            Direction::Right => Direction::Left,
        }
    }
}

impl Cell {
    /// The neighbouring cell towards `d`; on the edge of the board the cell stays put
    /// along that axis.
    pub fn step(self, d: Direction) -> (r: Cell)
        requires
            in_bounds(self),
        ensures
            r == step_spec(self, d),
            in_bounds(r),
    {
        match d {
            Direction::Up => Cell { x: self.x, y: if self.y == 0 { 0 } else { self.y - 1 } },
            Direction::Down => Cell {
                x: self.x,
                y: if self.y + 1 < GRID_SIZE { self.y + 1 } else { GRID_SIZE - 1 },
            },
            Direction::Left => Cell { x: if self.x == 0 { 0 } else { self.x - 1 }, y: self.y },
            Direction::Right => Cell {
                x: if self.x + 1 < GRID_SIZE { self.x + 1 } else { GRID_SIZE - 1 },
                y: self.y,
            },
        }
    }
}

} // verus!
