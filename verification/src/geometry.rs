//! Whole-pixel geometry of the drawing surface.

use vstd::prelude::*;

verus! {

/// A position on the drawing surface, in whole pixels.
#[derive(Clone, Copy, Debug, PartialEq, Eq, Structural)]
pub struct Point {
    pub x: i32,
    pub y: i32,
}

/// An axis-aligned rectangle: its top-left corner and its extent.
#[derive(Clone, Copy, Debug, PartialEq, Eq, Structural)]
pub struct Rect {
    pub x: i32,
    pub y: i32,
    pub w: u32,
    pub h: u32,
}

impl Rect {
    pub open spec fn left(self) -> int {
        self.x as int
    }

    pub open spec fn right(self) -> int {
        self.x + self.w
    }

    pub open spec fn top(self) -> int {
        self.y as int
    }

    pub open spec fn bottom(self) -> int {
        self.y + self.h
    }

    /// A point lies within the rectangle when it is on or between its edges:
    /// all four edges belong to the rectangle.
    pub open spec fn spec_contains(&self, p: Point) -> bool {
        &&& self.left() <= p.x <= self.right()
        &&& self.top() <= p.y <= self.bottom()
    }

    /// Two rectangles overlap when some point lies within both.
    pub open spec fn spec_overlaps(&self, other: Rect) -> bool {
        &&& self.left() <= other.right()
        &&& other.left() <= self.right()
        &&& self.top() <= other.bottom()
        &&& other.top() <= self.bottom()
    }

    #[verifier::when_used_as_spec(spec_contains)]
    pub fn contains(&self, p: Point) -> (inside: bool)
        ensures
            inside == self.spec_contains(p),
        no_unwind
    {
        let px: i64 = p.x as i64;
        let py: i64 = p.y as i64;
        let left: i64 = self.x as i64;
        let top: i64 = self.y as i64;
        left <= px && px <= left + self.w as i64 && top <= py && py <= top + self.h as i64
    }

    #[verifier::when_used_as_spec(spec_overlaps)]
    pub fn overlaps(&self, other: Rect) -> (shared: bool)
        ensures
            shared == self.spec_overlaps(other),
    {
        let left: i64 = self.x as i64;
        let top: i64 = self.y as i64;
        let other_left: i64 = other.x as i64;
        let other_top: i64 = other.y as i64;
        left <= other_left + other.w as i64 && other_left <= left + self.w as i64
            && top <= other_top + other.h as i64 && other_top <= top + self.h as i64
    }
}

/// Rectangles that do not overlap have no point in common.
pub proof fn lemma_apart_share_no_point(a: Rect, b: Rect, p: Point)
    requires
        !a.overlaps(b),
    ensures
        !(a.contains(p) && b.contains(p)),
{
}

} // verus!
