use vstd::prelude::*;

verus! {

/// One of the four headings a snake can take on the grid.
#[derive(Debug, Clone, Copy, PartialEq, Eq, Structural)]
pub enum Direction {
    Up,
    Right,
    Down,
    Left,
}

/// The heading turned by 180 degrees.
pub open spec fn reversed(d: Direction) -> Direction {
    match d {
        Direction::Up => Direction::Down,
        Direction::Right => Direction::Left,
        Direction::Down => Direction::Up,
        Direction::Left => Direction::Right,
    }
}

impl Direction {
    // Without the opposite heading, the trailing body segments would be laid out
    // in front of the head, and the snake would collide with itself on its first move.
    pub fn opposite(&self) -> (r: Self)
        ensures
            r == reversed(*self),
    {
        match self {
            Self::Up => Self::Down,
            Self::Right => Self::Left,
            Self::Down => Self::Up,
            Self::Left => Self::Right,
        }
    }
}

/// Reversing a heading twice gives the heading back.
pub proof fn lemma_opposite_involutive(d: Direction)
    ensures
        reversed(reversed(d)) == d,
{
}

} // verus!
