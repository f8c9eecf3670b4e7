use crate::direction::{reversed, Direction};
use crate::point::{move_fits, moved, Point};
use vstd::prelude::*;

verus! {

/// The snake: its body, head first, and the heading it moves along.
#[derive(Debug)]
pub struct Snake {
    body: Vec<Point>,
    direction: Direction,
}

/// The number of segments a snake built with `length` has: at least the head.
pub open spec fn clamped_length(length: u16) -> int {
    if length == 0 {
        1
    } else {
        length as int
    }
}

/// The body laid out from `start` backwards, against `direction`, one cell per segment.
pub open spec fn initial_body(start: Point, length: u16, direction: Direction) -> Seq<Point> {
    Seq::new(clamped_length(length) as nat, |i: int| moved(start, reversed(direction), i))
}

impl Snake {
    /// The segments, head first.
    pub closed spec fn body_seq(&self) -> Seq<Point> {
        self.body@
    }

    /// The heading the snake moves along.
    pub closed spec fn heading(&self) -> Direction {
        self.direction
    }

    /// A snake always has a head.
    pub open spec fn wf(&self) -> bool {
        self.body_seq().len() >= 1
    }

    /// The head segment.
    pub open spec fn head(&self) -> Point
        recommends
            self.wf(),
    {
        self.body_seq()[0]
    }

    /// The next head can be computed without leaving the range of the coordinates.
    pub open spec fn can_advance(&self) -> bool {
        self.wf() && move_fits(self.head(), self.heading(), 1)
    }

    /// Where the head goes on the next move.
    pub open spec fn next_head(&self) -> Point {
        moved(self.head(), self.heading(), 1)
    }

    /// Lays out `length` segments (at least one) from `start` backwards, so that the
    /// body trails behind a head that moves along `direction`.
    pub fn new(start: Point, length: u16, direction: Direction) -> (r: Self)
        requires
            move_fits(start, reversed(direction), clamped_length(length) - 1),
        ensures
            r.wf(),
            r.body_seq() == initial_body(start, length, direction),
            r.heading() == direction,
    {
        let n: u16 = if length == 0 {
            1
        } else {
            length
        };
        let behind = direction.opposite();
        let mut body: Vec<Point> = Vec::new();
        let mut i: u16 = 0;
        while i < n
            invariant
                n as int == clamped_length(length),
                behind == reversed(direction),
                move_fits(start, behind, n - 1),
                i <= n,
                body@ =~= initial_body(start, length, direction).take(i as int),
            decreases n - i,
        {
            assert(move_fits(start, behind, i as int));
            let segment = start.transform(behind, i);
            match segment {
                Ok(p) => body.push(p),
                // The contract rules this out: the move stays within the coordinates.
            Err(_) => {},
            }
            i = i + 1;
        }
        Snake { body, direction }
    }

    pub fn get_direction(&self) -> (r: Direction)
        ensures
            r == self.heading(),
    {
        self.direction
    }

    /// Sets the heading. Whether a turn is allowed is decided by the game, not here.
    pub fn set_direction(&mut self, direction: Direction)
        ensures
            final(self).heading() == direction,
            final(self).body_seq() == old(self).body_seq(),
    {
        self.direction = direction;
    }

    pub fn get_head_point(&self) -> (r: Point)
        requires
            self.wf(),
        ensures
            r == self.head(),
    {
        self.body[0]
    }

    /// The segments, head first.
    pub fn get_body_points(&self) -> (r: &Vec<Point>)
        ensures
            r@ == self.body_seq(),
    {
        &self.body
    }

    /// Whether some segment lies on `point`.
    pub fn contains_point(&self, point: &Point) -> (r: bool)
        ensures
            r == self.body_seq().contains(*point),
    {
        let mut i: usize = 0;
        while i < self.body.len()
            invariant
                i <= self.body@.len(),
                forall|k: int| 0 <= k < i ==> self.body@[k] != *point,
            decreases self.body@.len() - i,
        {
            if self.body[i] == *point {
                return true;
            }
            i = i + 1;
        }
        false
    }

    /// Moves one cell along the heading: a new head is put in front and the tail is dropped.
    pub fn slither(&mut self)
        requires
            old(self).can_advance(),
        ensures
            final(self).wf(),
            final(self).body_seq() == seq![old(self).next_head()] + old(self).body_seq().drop_last(),
            final(self).heading() == old(self).heading(),
    {
        let head = self.body[0];
        match head.transform(self.direction, 1) {
            Ok(next) => {
                self.body.insert(0, next);
                self.body.pop();
            },
            // The contract rules this out: the move stays within the coordinates.
            Err(_) => {},
        }
        assert(self.body@ =~= seq![old(self).next_head()] + old(self).body@.drop_last());
    }

    /// Moves one cell along the heading and keeps the tail: the body gets one segment longer.
    pub fn grow(&mut self)
        requires
            old(self).can_advance(),
            old(self).body_seq().len() < usize::MAX,
        ensures
            final(self).wf(),
            final(self).body_seq() == seq![old(self).next_head()] + old(self).body_seq(),
            final(self).heading() == old(self).heading(),
    {
        let head = self.body[0];
        match head.transform(self.direction, 1) {
            Ok(next) => {
                self.body.insert(0, next);
            },
            // The contract rules this out: the move stays within the coordinates.
            Err(_) => {},
        }
        assert(self.body@ =~= seq![old(self).next_head()] + old(self).body@);
    }
}

/// Slithering keeps the length of the body, and its new head is the old head moved
/// one cell along the heading.
pub proof fn lemma_slither_law(before: Snake, after: Snake)
    requires
        before.can_advance(),
        after.body_seq() == seq![before.next_head()] + before.body_seq().drop_last(),
    ensures
        after.body_seq().len() == before.body_seq().len(),
        after.head() == moved(before.head(), before.heading(), 1),
{
}

/// Growing adds exactly one segment, a new head in front of the old body, which is
/// kept as it was.
pub proof fn lemma_grow_law(before: Snake, after: Snake)
    requires
        before.can_advance(),
        after.body_seq() == seq![before.next_head()] + before.body_seq(),
    ensures
        after.body_seq().len() == before.body_seq().len() + 1,
        after.head() == moved(before.head(), before.heading(), 1),
        after.body_seq().drop_first() == before.body_seq(),
{
    assert(after.body_seq().drop_first() =~= before.body_seq());
}

} // verus!
