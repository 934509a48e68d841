//! Board geometry: cells, directions and toroidal stepping.
use vstd::prelude::*;

verus! {

/// Number of columns of the board.
pub const GRID_X: usize = 10;

/// Number of rows of the board.
pub const GRID_Y: usize = 10;

/// A cell of the board, column `x` and row `y` (row 0 is the top).
#[derive(Clone, Copy, Debug, PartialEq, Eq, Structural)]
pub struct Position {
    pub x: usize,
    pub y: usize,
}

/// One of the four moves on the board.
#[derive(Clone, Copy, Debug, PartialEq, Eq, Structural)]
pub enum Direction {
    Up,
    Down,
    Left,
    Right,
}

/// The direction keys held down in one frame.
#[derive(Clone, Copy, Debug, PartialEq, Eq, Structural)]
pub struct KeyInput {
    pub up: bool,
    pub down: bool,
    pub left: bool,
    pub right: bool,
}

impl Position {
    pub open spec fn in_grid(self) -> bool {
        self.x < GRID_X && self.y < GRID_Y
    }

    /// The cell reached by one move in direction `d`, wrapping around the edges.
    pub open spec fn wrapped(self, d: Direction) -> Position {
        Position {
            x: ((self.x + d.dx()) % (GRID_X as int)) as usize,
            y: ((self.y + d.dy()) % (GRID_Y as int)) as usize,
        }
    }

    pub fn new(x: usize, y: usize) -> (r: Position)
        ensures
            r.x == x,
            r.y == y,
    {
        Position { x, y }
    }

    /// Moves one cell in direction `d`; leaving the board on one side
    /// re-enters it on the opposite side.
    pub fn step(&self, d: Direction) -> (r: Position)
        requires
            self.in_grid(),
        ensures
            r == self.wrapped(d),
            r.in_grid(),
    {
        match d {
            Direction::Up => Position { x: self.x, y: if self.y == 0 { GRID_Y - 1 } else { self.y - 1 } },
            Direction::Down => Position { x: self.x, y: if self.y + 1 == GRID_Y { 0 } else { self.y + 1 } },
            Direction::Left => Position { x: if self.x == 0 { GRID_X - 1 } else { self.x - 1 }, y: self.y },
            Direction::Right => Position { x: if self.x + 1 == GRID_X { 0 } else { self.x + 1 }, y: self.y },
        }
    }
}

impl Direction {
    /// Column offset of one move.
    pub open spec fn dx(self) -> int {
        match self {
            Direction::Left => -1,
            Direction::Right => 1,
            _ => 0,
        }
    }

    /// Row offset of one move (rows grow downwards).
    pub open spec fn dy(self) -> int {
        match self {
            Direction::Up => -1,
            Direction::Down => 1,
            _ => 0,
        }
    }

    /// Display angle in degrees, counter-clockwise from facing right.
    pub open spec fn angle(self) -> int {
        match self {
            Direction::Up => 90,
            Direction::Down => 270,
            Direction::Left => 180,
            Direction::Right => 0,
        }
    }

    pub open spec fn opposite(self) -> Direction {
        match self {
            Direction::Up => Direction::Down,
            Direction::Down => Direction::Up,
            Direction::Left => Direction::Right,
            Direction::Right => Direction::Left,
        }
    }

    /// The direction that the keys of one frame ask for: up, down, left and
    /// right take precedence in that order.
    pub open spec fn requested(keys: KeyInput) -> Option<Direction> {
        if keys.up {
            Some(Direction::Up)
        } else if keys.down {
            Some(Direction::Down)
        } else if keys.left {
            Some(Direction::Left)
        } else if keys.right {
            Some(Direction::Right)
        } else {
            None
        }
    }

    /// The direction after one frame of input: the requested one, unless it
    /// would turn straight back.
    pub open spec fn changed(self, keys: KeyInput) -> Direction {
        match Direction::requested(keys) {
            Some(d) => if d == self.opposite() { self } else { d },
            None => self,
        }
    }

    /// The cell offset `(dx, dy)` of one move.
    pub fn offset(&self) -> (r: (i32, i32))
        ensures
            r.0 == self.dx(),
            r.1 == self.dy(),
    {
        match self {
            Direction::Up => (0, -1),
            Direction::Down => (0, 1),
            Direction::Left => (-1, 0),
            Direction::Right => (1, 0),
        }
    }

    /// Display angle in degrees: up 90, right 0, down 270, left 180.
    pub fn rotation(&self) -> (r: i32)
        ensures
            r == self.angle(),
    {
        match self {
            Direction::Up => 90,
            Direction::Down => 270,
            Direction::Left => 180,
            Direction::Right => 0,
        }
    }

    /// Applies one frame of direction keys; a reversal is ignored.
    pub fn change(&mut self, keys: KeyInput)
        ensures
            *final(self) == old(self).changed(keys),
    {
        let cur = *self;
        if keys.up {
            if cur != Direction::Down {
                *self = Direction::Up;
            }
        } else if keys.down {
            if cur != Direction::Up {
                *self = Direction::Down;
            }
        } else if keys.left {
            if cur != Direction::Right {
                *self = Direction::Left;
            }
        } else if keys.right {
            if cur != Direction::Left {
                *self = Direction::Right;
            }
        }
    }
}

/// Wrapping is exact at every edge: stepping off the last column to the right
/// lands on column 0, stepping off column 0 to the left lands on the last
/// column, and likewise for rows; elsewhere a step moves by one cell. A step
/// always stays on the board and never stays in place.
pub proof fn lemma_step_wraps(p: Position, d: Direction)
    requires
        p.in_grid(),
    ensures
        p.wrapped(d).in_grid(),
        p.wrapped(d) != p,
        d == Direction::Right ==> p.wrapped(d).y == p.y && p.wrapped(d).x == (if p.x == GRID_X - 1 { 0 } else { p.x + 1 }),
        d == Direction::Left ==> p.wrapped(d).y == p.y && p.wrapped(d).x == (if p.x == 0 { GRID_X - 1 } else { p.x - 1 }),
        d == Direction::Down ==> p.wrapped(d).x == p.x && p.wrapped(d).y == (if p.y == GRID_Y - 1 { 0 } else { p.y + 1 }),
        d == Direction::Up ==> p.wrapped(d).x == p.x && p.wrapped(d).y == (if p.y == 0 { GRID_Y - 1 } else { p.y - 1 }),
{
}

} // verus!
