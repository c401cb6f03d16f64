//! Points, directions and axis-aligned rectangles in display-global pixel
//! coordinates.

use crate::error::{result_view, MoveError, MoveErrorView};
use vstd::prelude::*;

verus! {

/// A pixel coordinate in display-global space.
#[derive(Debug, Clone, Copy, PartialEq, Eq, Structural)]
pub struct Point {
    pub x: i32,
    pub y: i32,
}

/// One of the four directions in which the cursor can be sent.
#[derive(Debug, Clone, Copy, PartialEq, Eq, Structural)]
pub enum Direction {
    Left,
    Right,
    Up,
    Down,
}

/// The lower-case form of a string, as `str::to_lowercase` gives it.
pub uninterp spec fn lowercase(s: Seq<char>) -> Seq<char>;

/// Calls `str::to_lowercase`. The result is a function of the argument's
/// characters alone; nothing else is claimed of it.
#[verifier::external_body]
fn to_lowercase(s: &str) -> (lower: String)
    ensures
        lower@ == lowercase(s@),
{
    s.to_lowercase()
}

impl Direction {
    /// The direction that leads back.
    pub open spec fn opposite(self) -> Direction {
        match self {
            Direction::Left => Direction::Right,
            Direction::Right => Direction::Left,
            Direction::Up => Direction::Down,
            Direction::Down => Direction::Up,
        }
    }

    /// The direction that a token names, if it is exactly one of the four
    /// lower-case words.
    pub open spec fn of_token(token: Seq<char>) -> Option<Direction> {
        if token == "left"@ {
            Some(Direction::Left)
        } else if token == "up"@ {
            Some(Direction::Up)
        } else if token == "down"@ {
            Some(Direction::Down)
        } else if token == "right"@ {
            Some(Direction::Right)
        } else {
            None
        }
    }

    /// What parsing answers for a token that is already in lower case.
    pub open spec fn parsed(token: Seq<char>) -> Result<Direction, MoveErrorView> {
        match Self::of_token(token) {
            Some(d) => Ok(d),
            None => Err(MoveErrorView::InvalidDirection(token)),
        }
    }

    /// Reads a direction from a token that is already in lower case. Any
    /// token but the four words is handed back in the error.
    pub fn from_token(token: String) -> (r: Result<Direction, MoveError>)
        ensures
            result_view(r) == Self::parsed(token@),
    {
        if token == "left".to_owned() {
            Ok(Direction::Left)
        } else if token == "up".to_owned() {
            Ok(Direction::Up)
        } else if token == "down".to_owned() {
            Ok(Direction::Down)
        } else if token == "right".to_owned() {
            Ok(Direction::Right)
        } else {
            Err(MoveError::InvalidDirection(token))
        }
    }

    /// Reads a direction from a token, whatever the case of its letters.
    pub fn from_str(s: &str) -> (r: Result<Direction, MoveError>)
        ensures
            result_view(r) == Self::parsed(lowercase(s@)),
    {
        Self::from_token(to_lowercase(s))
    }
}

/// The four corners of a rectangle.
#[derive(Debug, Clone, Copy, PartialEq, Eq, Structural)]
pub struct BoundingBox {
    pub top_left: Point,
    pub top_right: Point,
    pub bottom_left: Point,
    pub bottom_right: Point,
}

/// An axis-aligned rectangle, given by the coordinates of its four edges.
///
/// `left` and `top` are the coordinates of the origin corner, `right` and
/// `bottom` those of the opposite corner. An implementor's edges lie within
/// the range of `i32`, so that every corner is a `Point`.
pub trait Rectangle {
    spec fn left(&self) -> int;

    spec fn top(&self) -> int;

    spec fn right(&self) -> int;

    spec fn bottom(&self) -> int;

    /// Whether the point lies in the rectangle, the four edges included.
    fn contains_point(&self, x: i32, y: i32) -> (inside: bool)
        ensures
            inside == (self.left() <= x <= self.right() && self.top() <= y <= self.bottom()),
    ;

    fn top_left(&self) -> (p: Point)
        ensures
            p.x == self.left(),
            p.y == self.top(),
    ;

    fn top_right(&self) -> (p: Point)
        ensures
            p.x == self.right(),
            p.y == self.top(),
    ;

    fn bottom_left(&self) -> (p: Point)
        ensures
            p.x == self.left(),
            p.y == self.bottom(),
    ;

    fn bottom_right(&self) -> (p: Point)
        ensures
            p.x == self.right(),
            p.y == self.bottom(),
    ;

    /// The four corners, computed anew at each call.
    fn bounding_box(&self) -> (b: BoundingBox)
        ensures
            b.frames(self.left(), self.top(), self.right(), self.bottom()),
    ;
}

impl BoundingBox {
    /// Whether the four corners are those of the rectangle with these edges.
    pub open spec fn frames(&self, left: int, top: int, right: int, bottom: int) -> bool {
        &&& self.top_left.x == left && self.top_left.y == top
        &&& self.top_right.x == right && self.top_right.y == top
        &&& self.bottom_left.x == left && self.bottom_left.y == bottom
        &&& self.bottom_right.x == right && self.bottom_right.y == bottom
    }

    /// The corners of `m`.
    pub fn new(m: &impl Rectangle) -> (b: Self)
        ensures
            b.frames(m.left(), m.top(), m.right(), m.bottom()),
    {
        Self {
            top_left: m.top_left(),
            top_right: m.top_right(),
            bottom_left: m.bottom_left(),
            bottom_right: m.bottom_right(),
        }
    }
}

} // verus!
