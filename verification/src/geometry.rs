//! Points and axis-aligned rectangles on an integer grid.
//!
//! Coordinates are whole numbers of whatever unit the caller lays out in
//! (device pixels, or a fixed fraction of one). A rectangle is half-open: it
//! holds its left and top edges and leaves out its right and bottom edges, so
//! that rectangles that share an edge share no point.

use vstd::prelude::*;

verus! {

/// A position on the grid.
#[derive(Clone, Copy, Debug, PartialEq, Eq, Structural)]
pub struct Point {
    pub x: i64,
    pub y: i64,
}

/// The rectangle with corners `(x0, y0)` and `(x1, y1)`.
///
/// Nothing is asked of the corners: where `x1 <= x0` or `y1 <= y0` the
/// rectangle has no area and contains no point.
#[derive(Clone, Copy, Debug, PartialEq, Eq, Structural)]
pub struct Bounds {
    pub x0: i64,
    pub y0: i64,
    pub x1: i64,
    pub y1: i64,
}

impl Point {
    pub fn new(x: i64, y: i64) -> (p: Point)
        ensures
            p == (Point { x, y }),
    {
        Point { x, y }
    }
}

impl Bounds {
    pub fn new(x0: i64, y0: i64, x1: i64, y1: i64) -> (b: Bounds)
        ensures
            b == (Bounds { x0, y0, x1, y1 }),
    {
        Bounds { x0, y0, x1, y1 }
    }

    /// Whether `p` lies inside: on or past the left and top edges, and
    /// strictly before the right and bottom edges.
    pub open spec fn contains(self, p: Point) -> bool {
        self.x0 <= p.x < self.x1 && self.y0 <= p.y < self.y1
    }

    /// Whether the rectangle holds at least one point.
    pub open spec fn has_area(self) -> bool {
        self.x0 < self.x1 && self.y0 < self.y1
    }

    /// Whether a pointer hovers over the rectangle. A pointer whose position
    /// is unknown, for one that has left the surface, hovers over nothing.
    pub open spec fn contains_pointer(self, pointer: Option<Point>) -> bool {
        match pointer {
            Some(p) => self.contains(p),
            None => false,
        }
    }

    pub fn contains_point(&self, p: Point) -> (inside: bool)
        ensures
            inside == self.contains(p),
    {
        self.x0 <= p.x && p.x < self.x1 && self.y0 <= p.y && p.y < self.y1
    }

    pub fn is_hovered_by(&self, pointer: Option<Point>) -> (hovered: bool)
        ensures
            hovered == self.contains_pointer(pointer),
    {
        match pointer {
            Some(p) => self.contains_point(p),
            None => false,
        }
    }

    /// A rectangle contains some point exactly when it has area, and its
    /// top-left corner is then one.
    pub proof fn lemma_contains_some_point_iff_area(self)
        ensures
            self.has_area() <==> exists|p: Point| self.contains(p),
            self.has_area() ==> self.contains(Point { x: self.x0, y: self.y0 }),
    {
        if self.has_area() {
            assert(self.contains(Point { x: self.x0, y: self.y0 }));
        }
    }
}

} // verus!
