use crate::direction::Direction;
use vstd::prelude::*;

verus! {

/// A cell of the grid, counted from the top-left corner.
#[derive(Debug, Clone, Copy, PartialEq, Eq, Structural)]
pub struct Point {
    pub x: u16,
    pub y: u16,
}

/// Why a point could not be moved: the result would leave the range of the coordinates.
#[derive(Debug, Clone, Copy, PartialEq, Eq, Structural)]
pub enum PointError {
    /// The move would take a coordinate below zero.
    CoordinateUnderflow,
    /// The move would take a coordinate past the largest value it can hold.
    CoordinateOverflow,
}

/// The column reached from `p` after `n` cells along `d`, as an unbounded integer.
pub open spec fn moved_x(p: Point, d: Direction, n: int) -> int {
    match d {
        Direction::Left => p.x - n,
        Direction::Right => p.x + n,
        _ => p.x as int,
    }
}

/// The row reached from `p` after `n` cells along `d`, as an unbounded integer.
pub open spec fn moved_y(p: Point, d: Direction, n: int) -> int {
    match d {
        Direction::Up => p.y - n,
        Direction::Down => p.y + n,
        _ => p.y as int,
    }
}

/// Moving `n` cells along `d` would take a coordinate below zero.
pub open spec fn move_underflows(p: Point, d: Direction, n: int) -> bool {
    moved_x(p, d, n) < 0 || moved_y(p, d, n) < 0
}

/// Moving `n` cells along `d` would take a coordinate past `u16::MAX`.
pub open spec fn move_overflows(p: Point, d: Direction, n: int) -> bool {
    moved_x(p, d, n) > u16::MAX || moved_y(p, d, n) > u16::MAX
}

/// Moving `n` cells along `d` stays within the range of the coordinates.
pub open spec fn move_fits(p: Point, d: Direction, n: int) -> bool {
    !move_underflows(p, d, n) && !move_overflows(p, d, n)
}

/// The point `n` cells away from `p` along `d`.
pub open spec fn moved(p: Point, d: Direction, n: int) -> Point
    recommends
        move_fits(p, d, n),
{
    Point { x: moved_x(p, d, n) as u16, y: moved_y(p, d, n) as u16 }
}

impl Point {
    pub fn new(x: u16, y: u16) -> (r: Self)
        ensures
            r.x == x,
            r.y == y,
    {
        Point { x, y }
    }

    /// The point `distance` cells away along `direction`: up and left subtract,
    /// down and right add. A coordinate that would leave `0..=u16::MAX` is an error.
    pub fn transform(&self, direction: Direction, distance: u16) -> (r: Result<Point, PointError>)
        ensures
            r is Ok <==> move_fits(*self, direction, distance as int),
            r matches Ok(q) ==> move_fits(*self, direction, distance as int) && q == moved(
                *self,
                direction,
                distance as int,
            ),
            r == Err::<Point, PointError>(PointError::CoordinateUnderflow) <==> move_underflows(
                *self,
                direction,
                distance as int,
            ),
            r == Err::<Point, PointError>(PointError::CoordinateOverflow) <==> move_overflows(
                *self,
                direction,
                distance as int,
            ),
    {
        match direction {
            Direction::Up => {
                if self.y < distance {
                    Err(PointError::CoordinateUnderflow)
                } else {
                    Ok(Point { x: self.x, y: self.y - distance })
                }
            },
            Direction::Left => {
                if self.x < distance {
                    Err(PointError::CoordinateUnderflow)
                } else {
                    Ok(Point { x: self.x - distance, y: self.y })
                }
            },
            Direction::Down => {
                if self.y > u16::MAX - distance {
                    Err(PointError::CoordinateOverflow)
                } else {
                    Ok(Point { x: self.x, y: self.y + distance })
                }
            },
            Direction::Right => {
                if self.x > u16::MAX - distance {
                    Err(PointError::CoordinateOverflow)
                } else {
                    Ok(Point { x: self.x + distance, y: self.y })
                }
            },
        }
    }
}

} // verus!
