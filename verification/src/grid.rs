//! The world grid: positions in global coordinates, the eight step
//! directions, and the distance measure the movement rules use.

use vstd::prelude::*;

verus! {

/// Edge length of one region (room) of the grid; a position's region is
/// recovered by dividing each coordinate by this.
pub const REGION_EDGE: u16 = 50;

/// A cell of the world grid, in global coordinates.
#[derive(PartialEq, Eq, Structural, Clone, Copy, Hash, Debug)]
pub struct Pos {
    pub x: u16,
    pub y: u16,
}

/// One of the eight single-step movement directions.
#[derive(PartialEq, Eq, Structural, Clone, Copy, Hash, Debug)]
pub enum Direction {
    Top,
    TopRight,
    Right,
    BottomRight,
    Bottom,
    BottomLeft,
    Left,
    TopLeft,
}

/// Horizontal displacement of one step in direction `d`.
pub open spec fn dir_dx(d: Direction) -> int {
    match d {
        Direction::Top => 0,
        Direction::TopRight => 1,
        Direction::Right => 1,
        Direction::BottomRight => 1,
        Direction::Bottom => 0,
        Direction::BottomLeft => -1,
        Direction::Left => -1,
        Direction::TopLeft => -1,
    }
}

/// Vertical displacement of one step in direction `d` (up decreases `y`).
pub open spec fn dir_dy(d: Direction) -> int {
    match d {
        Direction::Top => -1,
        Direction::TopRight => -1,
        Direction::Right => 0,
        Direction::BottomRight => 1,
        Direction::Bottom => 1,
        Direction::BottomLeft => 1,
        Direction::Left => 0,
        Direction::TopLeft => -1,
    }
}

/// The direction exactly opposite `d`.
pub open spec fn spec_opposite(d: Direction) -> Direction {
    match d {
        Direction::Top => Direction::Bottom,
        Direction::TopRight => Direction::BottomLeft,
        Direction::Right => Direction::Left,
        Direction::BottomRight => Direction::TopLeft,
        Direction::Bottom => Direction::Top,
        Direction::BottomLeft => Direction::TopRight,
        Direction::Left => Direction::Right,
        Direction::TopLeft => Direction::BottomRight,
    }
}

impl Direction {
    /// The direction exactly opposite this one.
    pub fn opposite(self) -> (r: Direction)
        ensures
            r == spec_opposite(self),
    {
        match self {
            Direction::Top => Direction::Bottom,
            Direction::TopRight => Direction::BottomLeft,
            Direction::Right => Direction::Left,
            Direction::BottomRight => Direction::TopLeft,
            Direction::Bottom => Direction::Top,
            Direction::BottomLeft => Direction::TopRight,
            Direction::Left => Direction::Right,
            Direction::TopLeft => Direction::BottomRight,
        }
    }
}

/// Taking one step from `from` in direction `d` lands exactly on `to`.
pub open spec fn stepped(from: Pos, d: Direction, to: Pos) -> bool {
    &&& to.x == from.x + dir_dx(d)
    &&& to.y == from.y + dir_dy(d)
}

/// The cell reached by stepping from `p` in direction `d`, with each
/// coordinate clamped to the representable range at the numeric edges.
pub open spec fn spec_step_from(p: Pos, d: Direction) -> Pos {
    let nx = p.x + dir_dx(d);
    let ny = p.y + dir_dy(d);
    Pos {
        x: if nx < 0 { 0 } else if nx > u16::MAX { u16::MAX } else { nx as u16 },
        y: if ny < 0 { 0 } else if ny > u16::MAX { u16::MAX } else { ny as u16 },
    }
}

/// Chebyshev distance between two cells: the number of single steps needed
/// to walk from one to the other.
pub open spec fn spec_range(a: Pos, b: Pos) -> int {
    let dx = if a.x >= b.x { a.x - b.x } else { b.x - a.x };
    let dy = if a.y >= b.y { a.y - b.y } else { b.y - a.y };
    if dx >= dy { dx } else { dy }
}

/// Whether two cells lie in the same region of the grid.
pub open spec fn spec_same_region(a: Pos, b: Pos) -> bool {
    &&& a.x as int / REGION_EDGE as int == b.x as int / REGION_EDGE as int
    &&& a.y as int / REGION_EDGE as int == b.y as int / REGION_EDGE as int
}

/// The direction from `a` to `b` when `b` is exactly one step away, and
/// nothing otherwise.
pub open spec fn spec_adjacent_dir(a: Pos, b: Pos) -> Option<Direction> {
    let dx = b.x - a.x;
    let dy = b.y - a.y;
    if dx == 0 && dy == -1 {
        Some(Direction::Top)
    } else if dx == 1 && dy == -1 {
        Some(Direction::TopRight)
    } else if dx == 1 && dy == 0 {
        Some(Direction::Right)
    } else if dx == 1 && dy == 1 {
        Some(Direction::BottomRight)
    } else if dx == 0 && dy == 1 {
        Some(Direction::Bottom)
    } else if dx == -1 && dy == 1 {
        Some(Direction::BottomLeft)
    } else if dx == -1 && dy == 0 {
        Some(Direction::Left)
    } else if dx == -1 && dy == -1 {
        Some(Direction::TopLeft)
    } else {
        None
    }
}

impl Pos {
    /// Chebyshev distance to `other`.
    pub fn get_range_to(self, other: Pos) -> (r: u16)
        ensures
            r == spec_range(self, other),
    {
        let dx: u16 = if self.x >= other.x {
            self.x - other.x
        } else {
            other.x - self.x
        };
        let dy: u16 = if self.y >= other.y {
            self.y - other.y
        } else {
            other.y - self.y
        };
        if dx >= dy {
            dx
        } else {
            dy
        }
    }

    /// Whether this cell and `other` lie in the same region.
    pub fn same_region(self, other: Pos) -> (r: bool)
        ensures
            r == spec_same_region(self, other),
    {
        self.x / REGION_EDGE == other.x / REGION_EDGE && self.y / REGION_EDGE == other.y
            / REGION_EDGE
    }

    /// The cell one step away in direction `d`, clamped at the numeric edges
    /// of the coordinate space.
    pub fn step_from(self, d: Direction) -> (r: Pos)
        ensures
            r == spec_step_from(self, d),
    {
        let x: u16 = self.x;
        let y: u16 = self.y;
        let nx: u16 = match d {
            Direction::TopRight | Direction::Right | Direction::BottomRight => {
                if x == u16::MAX {
                    u16::MAX
                } else {
                    x + 1
                }
            },
            Direction::BottomLeft | Direction::Left | Direction::TopLeft => {
                if x == 0 {
                    0
                } else {
                    x - 1
                }
            },
            _ => x,
        };
        let ny: u16 = match d {
            Direction::Top | Direction::TopRight | Direction::TopLeft => {
                if y == 0 {
                    0
                } else {
                    y - 1
                }
            },
            Direction::BottomRight | Direction::Bottom | Direction::BottomLeft => {
                if y == u16::MAX {
                    u16::MAX
                } else {
                    y + 1
                }
            },
            _ => y,
        };
        Pos { x: nx, y: ny }
    }

    /// The direction to `other` when it is exactly one step away.
    pub fn adjacent_dir_to(self, other: Pos) -> (r: Option<Direction>)
        ensures
            r == spec_adjacent_dir(self, other),
    {
        let dx: i32 = other.x as i32 - self.x as i32;
        let dy: i32 = other.y as i32 - self.y as i32;
        if dx == 0 && dy == -1 {
            Some(Direction::Top)
        } else if dx == 1 && dy == -1 {
            Some(Direction::TopRight)
        } else if dx == 1 && dy == 0 {
            Some(Direction::Right)
        } else if dx == 1 && dy == 1 {
            Some(Direction::BottomRight)
        } else if dx == 0 && dy == 1 {
            Some(Direction::Bottom)
        } else if dx == -1 && dy == 1 {
            Some(Direction::BottomLeft)
        } else if dx == -1 && dy == 0 {
            Some(Direction::Left)
        } else if dx == -1 && dy == -1 {
            Some(Direction::TopLeft)
        } else {
            None
        }
    }
}

} // verus!
