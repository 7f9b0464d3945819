//! The arena: a square grid of cells, and the four headings a snake can take on it.

use vstd::prelude::*;

verus! {

/// Number of cells along the horizontal axis.
pub const ARENA_WIDTH: u32 = 10;

/// Number of cells along the vertical axis.
pub const ARENA_HEIGHT: u32 = 10;

/// One cell of the grid. A position may lie outside the arena: the head of a
/// snake that has just run into the wall does.
#[derive(Clone, Copy, Debug, PartialEq, Eq, Structural, Hash)]
pub struct Position {
    pub x: i32,
    pub y: i32,
}

/// A heading. `Up` increases `y`, `Right` increases `x`.
#[derive(Clone, Copy, Debug, PartialEq, Eq, Structural)]
pub enum Direction {
    Left,
    Up,
    Right,
    Down,
}

impl Direction {
    /// The heading that points the other way: `Left` pairs with `Right`, `Up`
    /// with `Down`.
    pub open spec fn spec_opposite(self) -> Direction {
        match self {
            Direction::Left => Direction::Right,
            Direction::Up => Direction::Down,
            Direction::Right => Direction::Left,
            Direction::Down => Direction::Up,
        }
    }

    /// Change of `x` made by one step along this heading.
    pub open spec fn dx(self) -> int {
        match self {
            Direction::Left => -1,
            Direction::Right => 1,
            _ => 0,
        }
    }

    /// Change of `y` made by one step along this heading.
    pub open spec fn dy(self) -> int {
        match self {
            Direction::Up => 1,
            Direction::Down => -1,
            _ => 0,
        }
    }

    /// Executable form of [`Direction::spec_opposite`].
    pub fn opposite(self) -> (r: Direction)
        ensures
            r == self.spec_opposite(),
    {
        match self {
            Direction::Left => Direction::Right,
            Direction::Up => Direction::Down,
            Direction::Right => Direction::Left,
            Direction::Down => Direction::Up,
        }
    }
}

impl Default for Position {
    /// The origin cell.
    fn default() -> (p: Position)
        ensures
            p == (Position { x: 0, y: 0 }),
    {
        Position { x: 0, y: 0 }
    }
}

impl Position {
    /// True where one step along `d` stays within what an `i32` can hold.
    pub open spec fn can_step(self, d: Direction) -> bool {
        &&& i32::MIN <= self.x + d.dx() <= i32::MAX
        &&& i32::MIN <= self.y + d.dy() <= i32::MAX
    }

    /// The neighbouring cell along `d`.
    pub open spec fn spec_step(self, d: Direction) -> Position
        recommends
            self.can_step(d),
    {
        Position { x: (self.x + d.dx()) as i32, y: (self.y + d.dy()) as i32 }
    }

    /// True where the cell lies outside the arena. Both coordinates are held
    /// against `ARENA_WIDTH`; `ARENA_HEIGHT` takes no part in the test. The
    /// arena is square, so the two agree.
    pub open spec fn spec_out_of_bounds(self) -> bool {
        self.x < 0 || self.y < 0 || self.x >= ARENA_WIDTH || self.y >= ARENA_WIDTH
    }

    /// True where the cell lies inside the arena.
    pub open spec fn in_arena(self) -> bool {
        0 <= self.x < ARENA_WIDTH && 0 <= self.y < ARENA_WIDTH
    }

    /// Moves one cell along `d`: exactly one coordinate changes, by one.
    pub fn step(self, d: Direction) -> (p: Position)
        requires
            self.can_step(d),
        ensures
            p == self.spec_step(d),
            p.x == self.x + d.dx(),
            p.y == self.y + d.dy(),
    {
        match d {
            Direction::Left => Position { x: self.x - 1, y: self.y },
            Direction::Right => Position { x: self.x + 1, y: self.y },
            Direction::Up => Position { x: self.x, y: self.y + 1 },
            Direction::Down => Position { x: self.x, y: self.y - 1 },
        }
    }

    /// Executable form of [`Position::spec_out_of_bounds`].
    pub fn out_of_bounds(self) -> (r: bool)
        ensures
            r == self.spec_out_of_bounds(),
            r == !self.in_arena(),
    {
        self.x < 0 || self.y < 0 || self.x as u32 >= ARENA_WIDTH || self.y as u32 >= ARENA_WIDTH
    }
}

/// Taking the opposite twice gives the heading back.
pub proof fn opposite_is_involution(h: Direction)
    ensures
        h.spec_opposite().spec_opposite() == h,
        h.spec_opposite() != h,
{
}

} // verus!
