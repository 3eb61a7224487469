//! Grid positions and the four directions the snake can move in.

use vstd::prelude::*;

verus! {

/// A position on the grid, in cell units (not pixels).
///
/// The grid itself only bounds where fruit may appear; the snake's head may
/// wander to any coordinate that fits in the field types.
#[derive(Clone, Copy, PartialEq, Eq, Structural, Debug)]
pub struct Coord {
    pub x: i16,
    pub y: i16,
}

/// One of the four unit vectors the snake can travel along.
///
/// `Up` points toward smaller `y`, `Down` toward larger `y`, matching a
/// screen whose origin is the top-left corner.
#[derive(Clone, Copy, PartialEq, Eq, Structural, Debug)]
pub enum Direction {
    Up,
    Down,
    Left,
    Right,
}

impl Direction {
    /// Horizontal component of this direction's unit vector.
    pub open spec fn dx(self) -> int {
        match self {
            Direction::Left => -1,
            Direction::Right => 1,
            _ => 0,
        }
    }

    /// Vertical component of this direction's unit vector.
    pub open spec fn dy(self) -> int {
        match self {
            Direction::Up => -1,
            Direction::Down => 1,
            _ => 0,
        }
    }

    /// The direction pointing exactly the other way.
    pub open spec fn spec_opposite(self) -> Direction {
        match self {
            Direction::Up => Direction::Down,
            Direction::Down => Direction::Up,
            Direction::Left => Direction::Right,
            Direction::Right => Direction::Left,
        }
    }

    /// Returns the direction pointing exactly the other way.
    #[verifier::when_used_as_spec(spec_opposite)]
    pub fn opposite(self) -> (r: Direction)
        ensures
            r == self.spec_opposite(),
    {
        match self {
            Direction::Up => Direction::Down,
            Direction::Down => Direction::Up,
            Direction::Left => Direction::Right,
            Direction::Right => Direction::Left,
        }
    }
}

impl Coord {
    /// Whether moving one cell along `d` stays within the coordinate type.
    pub open spec fn can_step(self, d: Direction) -> bool {
        &&& i16::MIN <= self.x + d.dx() <= i16::MAX
        &&& i16::MIN <= self.y + d.dy() <= i16::MAX
    }

    /// The cell one step along `d` from here.
    pub open spec fn stepped(self, d: Direction) -> Coord {
        Coord { x: (self.x + d.dx()) as i16, y: (self.y + d.dy()) as i16 }
    }

    /// Moves one cell along `d`.
    pub fn step(self, d: Direction) -> (r: Coord)
        requires
            self.can_step(d),
        ensures
            r == self.stepped(d),
    {
        match d {
            Direction::Up => Coord { x: self.x, y: self.y - 1 },
            Direction::Down => Coord { x: self.x, y: self.y + 1 },
            Direction::Left => Coord { x: self.x - 1, y: self.y },
            Direction::Right => Coord { x: self.x + 1, y: self.y },
        }
    }
}

} // verus!
