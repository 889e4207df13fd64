//! Integer rectangles in one coordinate space.
//!
//! The edge arithmetic saturates at the limits of `i32`, so a rectangle
//! reaching past them is clipped there rather than wrapping round.

use vstd::prelude::*;

verus! {

/// A point, in whichever integer space its rectangle lives in.
#[derive(Debug, Clone, Copy, PartialEq, Eq, Structural)]
pub struct Point {
    pub x: i32,
    pub y: i32,
}

/// A width and a height. Negative extents are allowed and hold nothing.
#[derive(Debug, Clone, Copy, PartialEq, Eq, Structural)]
pub struct Size {
    pub w: i32,
    pub h: i32,
}

/// A rectangle: its top-left corner and its extent.
#[derive(Debug, Clone, Copy, PartialEq, Eq, Structural)]
pub struct Rectangle {
    pub loc: Point,
    pub size: Size,
}

/// `a + b`, held to the range of `i32`.
pub open spec fn sat(v: int) -> int {
    if v > i32::MAX {
        i32::MAX as int
    } else if v < i32::MIN {
        i32::MIN as int
    } else {
        v
    }
}

pub open spec fn min(a: int, b: int) -> int {
    if a <= b {
        a
    } else {
        b
    }
}

pub open spec fn max(a: int, b: int) -> int {
    if a >= b {
        a
    } else {
        b
    }
}

/// `value` held inside `lo..=hi`, which must not be inverted.
pub open spec fn clamp(value: int, lo: int, hi: int) -> int {
    if value < lo {
        lo
    } else if value > hi {
        hi
    } else {
        value
    }
}

/// The first column to the right of the rectangle, saturated.
pub open spec fn right(r: Rectangle) -> int {
    sat(r.loc.x + r.size.w)
}

/// The first row below the rectangle, saturated.
pub open spec fn bottom(r: Rectangle) -> int {
    sat(r.loc.y + r.size.h)
}

pub open spec fn rect(x: int, y: int, w: int, h: int) -> Rectangle {
    Rectangle {
        loc: Point { x: x as i32, y: y as i32 },
        size: Size { w: w as i32, h: h as i32 },
    }
}

/// Whether `v` fits in an `i32`.
pub open spec fn fits(v: int) -> bool {
    i32::MIN <= v <= i32::MAX
}

pub open spec fn spec_overlaps(a: Rectangle, b: Rectangle) -> bool {
    &&& a.loc.x < right(b)
    &&& b.loc.x < right(a)
    &&& a.loc.y < bottom(b)
    &&& b.loc.y < bottom(a)
}

pub open spec fn spec_intersection(a: Rectangle, b: Rectangle) -> Option<Rectangle> {
    if !spec_overlaps(a, b) {
        None
    } else {
        let x = max(a.loc.x as int, b.loc.x as int);
        let y = max(a.loc.y as int, b.loc.y as int);
        Some(rect(x, y, min(right(a), right(b)) - x, min(bottom(a), bottom(b)) - y))
    }
}

pub open spec fn spec_contains(r: Rectangle, p: Point) -> bool {
    &&& p.x >= r.loc.x
    &&& p.x < right(r)
    &&& p.y >= r.loc.y
    &&& p.y < bottom(r)
}

/// The smallest rectangle holding both corners of both rectangles.
pub open spec fn spec_merge(a: Rectangle, b: Rectangle) -> Rectangle {
    let x = min(a.loc.x as int, b.loc.x as int);
    let y = min(a.loc.y as int, b.loc.y as int);
    let x2 = max(a.loc.x + a.size.w, b.loc.x + b.size.w);
    let y2 = max(a.loc.y + a.size.h, b.loc.y + b.size.h);
    let x_lo = min(x, x2);
    let x_hi = max(x, x2);
    let y_lo = min(y, y2);
    let y_hi = max(y, y2);
    rect(x_lo, y_lo, x_hi - x_lo, y_hi - y_lo)
}

/// Whether the extent an intersection computes fits in an `i32`.
pub open spec fn can_intersect(a: Rectangle, b: Rectangle) -> bool {
    spec_overlaps(a, b) ==> {
        &&& fits(min(right(a), right(b)) - max(a.loc.x as int, b.loc.x as int))
        &&& fits(min(bottom(a), bottom(b)) - max(a.loc.y as int, b.loc.y as int))
    }
}

/// Whether every corner a merge computes fits in an `i32`.
pub open spec fn can_merge(a: Rectangle, b: Rectangle) -> bool {
    &&& fits(a.loc.x + a.size.w)
    &&& fits(a.loc.y + a.size.h)
    &&& fits(b.loc.x + b.size.w)
    &&& fits(b.loc.y + b.size.h)
    &&& fits(max(max(a.loc.x + a.size.w, b.loc.x + b.size.w), max(a.loc.x as int, b.loc.x as int))
        - min(min(a.loc.x as int, b.loc.x as int), min(a.loc.x + a.size.w, b.loc.x + b.size.w)))
    &&& fits(max(max(a.loc.y + a.size.h, b.loc.y + b.size.h), max(a.loc.y as int, b.loc.y as int))
        - min(min(a.loc.y as int, b.loc.y as int), min(a.loc.y + a.size.h, b.loc.y + b.size.h)))
}

/// `a + b`, held to the range of `i32`.
pub fn saturating_add(a: i32, b: i32) -> (r: i32)
    ensures
        r == sat(a + b),
{
    let v = a as i64 + b as i64;
    if v > i32::MAX as i64 {
        i32::MAX
    } else if v < i32::MIN as i64 {
        i32::MIN
    } else {
        v as i32
    }
}

impl Point {
    pub fn new(x: i32, y: i32) -> (p: Point)
        ensures
            p.x == x,
            p.y == y,
    {
        Point { x, y }
    }
}

impl Size {
    pub fn new(w: i32, h: i32) -> (s: Size)
        ensures
            s.w == w,
            s.h == h,
    {
        Size { w, h }
    }

    /// Empty when either extent is zero.
    pub fn is_empty(self) -> (b: bool)
        ensures
            b == (self.w == 0 || self.h == 0),
    {
        self.w == 0 || self.h == 0
    }
}

impl Rectangle {
    pub fn new(loc: Point, size: Size) -> (r: Rectangle)
        ensures
            r.loc == loc,
            r.size == size,
    {
        Rectangle { loc, size }
    }

    /// A rectangle from four numbers: `x`, `y`, width and height.
    pub fn from_parts(x: i32, y: i32, w: i32, h: i32) -> (r: Rectangle)
        ensures
            r == rect(x as int, y as int, w as int, h as int),
    {
        Rectangle { loc: Point { x, y }, size: Size { w, h } }
    }

    /// A rectangle at the origin.
    pub fn from_size(size: Size) -> (r: Rectangle)
        ensures
            r.loc == (Point { x: 0, y: 0 }),
            r.size == size,
    {
        Rectangle { loc: Point { x: 0, y: 0 }, size }
    }

    /// Empty when either extent is zero.
    pub fn is_empty(self) -> (b: bool)
        ensures
            b == (self.size.w == 0 || self.size.h == 0),
    {
        self.size.is_empty()
    }

    /// The first column to the right, saturated.
    pub fn right(self) -> (v: i32)
        ensures
            v == right(self),
    {
        saturating_add(self.loc.x, self.size.w)
    }

    /// The first row below, saturated.
    pub fn bottom(self) -> (v: i32)
        ensures
            v == bottom(self),
    {
        saturating_add(self.loc.y, self.size.h)
    }

    /// Whether a point is inside. The far edges are exclusive.
    pub fn contains(self, p: Point) -> (b: bool)
        ensures
            b == spec_contains(self, p),
    {
        p.x >= self.loc.x && p.x < self.right() && p.y >= self.loc.y && p.y < self.bottom()
    }

    /// Whether the two share any area. Touching edges do not count.
    pub fn overlaps(self, other: Rectangle) -> (b: bool)
        ensures
            b == spec_overlaps(self, other),
    {
        self.loc.x < other.right() && other.loc.x < self.right() && self.loc.y < other.bottom()
            && other.loc.y < self.bottom()
    }

    /// The area the two share, or `None` when they share none.
    pub fn intersection(self, other: Rectangle) -> (r: Option<Rectangle>)
        requires
            can_intersect(self, other),
        ensures
            r == spec_intersection(self, other),
    {
        if !self.overlaps(other) {
            return None;
        }
        let x = if self.loc.x >= other.loc.x {
            self.loc.x
        } else {
            other.loc.x
        };
        let y = if self.loc.y >= other.loc.y {
            self.loc.y
        } else {
            other.loc.y
        };
        let (r1, r2) = (self.right(), other.right());
        let (b1, b2) = (self.bottom(), other.bottom());
        let x2 = if r1 <= r2 {
            r1
        } else {
            r2
        };
        let y2 = if b1 <= b2 {
            b1
        } else {
            b2
        };
        Some(Rectangle { loc: Point { x, y }, size: Size { w: x2 - x, h: y2 - y } })
    }

    /// The smallest rectangle holding both.
    pub fn merge(self, other: Rectangle) -> (r: Rectangle)
        requires
            can_merge(self, other),
        ensures
            r == spec_merge(self, other),
    {
        let ax2 = self.loc.x + self.size.w;
        let ay2 = self.loc.y + self.size.h;
        let bx2 = other.loc.x + other.size.w;
        let by2 = other.loc.y + other.size.h;
        let x = if self.loc.x <= other.loc.x {
            self.loc.x
        } else {
            other.loc.x
        };
        let y = if self.loc.y <= other.loc.y {
            self.loc.y
        } else {
            other.loc.y
        };
        let x2 = if ax2 >= bx2 {
            ax2
        } else {
            bx2
        };
        let y2 = if ay2 >= by2 {
            ay2
        } else {
            by2
        };
        let x_lo = if x <= x2 {
            x
        } else {
            x2
        };
        let x_hi = if x >= x2 {
            x
        } else {
            x2
        };
        let y_lo = if y <= y2 {
            y
        } else {
            y2
        };
        let y_hi = if y >= y2 {
            y
        } else {
            y2
        };
        Rectangle { loc: Point { x: x_lo, y: y_lo }, size: Size { w: x_hi - x_lo, h: y_hi - y_lo } }
    }
}

} // verus!
