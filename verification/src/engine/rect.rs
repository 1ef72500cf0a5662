//! Integer screen rectangle and point types.
//!
//! Right and bottom edges are exclusive bounds used for width/height math.

use vstd::prelude::*;

verus! {

/// Whether a mathematical integer is representable as an `i32`.
pub open spec fn fits_i32(x: int) -> bool {
    i32::MIN <= x <= i32::MAX
}

/// Screen rectangle with inclusive left/top and exclusive right/bottom.
#[derive(Debug, Clone, Copy, PartialEq, Eq, Structural)]
pub struct Rect {
    pub left: i32,
    pub top: i32,
    pub right: i32,
    pub bottom: i32,
}

impl Rect {
    /// Width as a mathematical integer.
    pub open spec fn w(self) -> int {
        self.right - self.left
    }

    /// Height as a mathematical integer.
    pub open spec fn h(self) -> int {
        self.bottom - self.top
    }

    /// The rectangle built from four coordinates.
    pub open spec fn of(left: i32, top: i32, right: i32, bottom: i32) -> Rect {
        Rect { left, top, right, bottom }
    }

    /// Open-interval overlap on both axes.
    pub open spec fn overlaps(self, other: Rect) -> bool {
        &&& self.left < other.right
        &&& self.right > other.left
        &&& self.top < other.bottom
        &&& self.bottom > other.top
    }

    /// Componentwise max of the near edges and min of the far edges.
    pub open spec fn meet(self, other: Rect) -> Rect {
        Rect {
            left: if self.left >= other.left { self.left } else { other.left },
            top: if self.top >= other.top { self.top } else { other.top },
            right: if self.right <= other.right { self.right } else { other.right },
            bottom: if self.bottom <= other.bottom { self.bottom } else { other.bottom },
        }
    }

    /// Whether `is_empty` can be evaluated without overflow.
    pub open spec fn emptiness_defined(self) -> bool {
        fits_i32(self.w()) && (self.w() > 0 ==> fits_i32(self.h()))
    }

    /// A rectangle with no interior.
    pub open spec fn degenerate(self) -> bool {
        self.w() <= 0 || self.h() <= 0
    }

    pub fn new(left: i32, top: i32, right: i32, bottom: i32) -> (r: Rect)
        ensures
            r == Rect::of(left, top, right, bottom),
    {
        Rect { left, top, right, bottom }
    }

    pub fn width(self) -> (w: i32)
        requires
            fits_i32(self.w()),
        ensures
            w == self.w(),
    {
        self.right - self.left
    }

    pub fn height(self) -> (h: i32)
        requires
            fits_i32(self.h()),
        ensures
            h == self.h(),
    {
        self.bottom - self.top
    }

    pub fn area(self) -> (a: i64)
        requires
            fits_i32(self.w()),
            fits_i32(self.h()),
        ensures
            a == self.w() * self.h(),
    {
        let w = self.width() as i64;
        let h = self.height() as i64;
        assert(-0x8000_0000_0000_0000 <= w * h <= 0x7FFF_FFFF_FFFF_FFFF) by (nonlinear_arith)
            requires
                -0x8000_0000 <= w <= 0x7FFF_FFFF,
                -0x8000_0000 <= h <= 0x7FFF_FFFF,
        ;
        w * h
    }

    pub fn is_empty(self) -> (b: bool)
        requires
            self.emptiness_defined(),
        ensures
            b == self.degenerate(),
    {
        self.width() <= 0 || self.height() <= 0
    }

    pub fn intersects(self, other: Rect) -> (b: bool)
        ensures
            b == self.overlaps(other),
    {
        self.left < other.right && self.right > other.left && self.top < other.bottom
            && self.bottom > other.top
    }

    pub fn intersection(self, other: Rect) -> (r: Rect)
        ensures
            r == self.meet(other),
    {
        Rect::new(
            if self.left >= other.left { self.left } else { other.left },
            if self.top >= other.top { self.top } else { other.top },
            if self.right <= other.right { self.right } else { other.right },
            if self.bottom <= other.bottom { self.bottom } else { other.bottom },
        )
    }
}

/// Integer screen point.
#[derive(Debug, Clone, Copy, PartialEq, Eq, Structural)]
pub struct Point {
    pub x: i32,
    pub y: i32,
}

impl Point {
    pub fn new(x: i32, y: i32) -> (p: Point)
        ensures
            p == (Point { x, y }),
    {
        Point { x, y }
    }
}

/// The intersection lies inside both rectangles and is exactly the common
/// part: a point is in the intersection iff it is in both rectangles.
pub proof fn law_intersection_is_common_part(a: Rect, b: Rect, x: int, y: int)
    ensures
        ({
            let m = a.meet(b);
            (m.left <= x < m.right && m.top <= y < m.bottom) <==> (a.left <= x < a.right && a.top
                <= y < a.bottom && b.left <= x < b.right && b.top <= y < b.bottom)
        }),
{
}

/// Two rectangles with interiors overlap exactly when their intersection
/// has an interior.
pub proof fn law_overlap_iff_nonempty_intersection(a: Rect, b: Rect)
    requires
        !a.degenerate(),
        !b.degenerate(),
    ensures
        a.overlaps(b) <==> !a.meet(b).degenerate(),
{
}

} // verus!
