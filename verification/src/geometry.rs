//! Integer sizes, size constraints and rectangles for the layout engine.
//!
//! All lengths are non-negative content-space units held in `u64`; screen
//! positions, which may be negative (content scrolled past the origin), are
//! held in `i64`.

use vstd::prelude::*;

verus! {

/// A width/height pair in content-space units.
#[derive(Clone, Copy, PartialEq, Eq, Structural, Debug)]
pub struct Size {
    pub x: u64,
    pub y: u64,
}

/// Independent min/max bounds per axis, as handed down by the host layout
/// system. A constraint is well formed when each minimum is at most the
/// corresponding maximum; the maxima are always finite here.
#[derive(Clone, Copy, PartialEq, Eq, Structural, Debug)]
pub struct SizeConstraint {
    pub min: Size,
    pub max: Size,
}

impl SizeConstraint {
    pub open spec fn well_formed(self) -> bool {
        self.min.x <= self.max.x && self.min.y <= self.max.y
    }

    pub fn new(min: Size, max: Size) -> (r: SizeConstraint)
        ensures
            r.min == min,
            r.max == max,
    {
        SizeConstraint { min, max }
    }
}

/// An axis-aligned rectangle in screen space: origin plus extent.
#[derive(Clone, Copy, PartialEq, Eq, Structural, Debug)]
pub struct Rect {
    pub origin_x: i64,
    pub origin_y: i64,
    pub width: u64,
    pub height: u64,
}

impl Rect {
    /// Right edge of the rectangle, as a mathematical integer.
    pub open spec fn spec_right(self) -> int {
        self.origin_x + self.width
    }

    /// Bottom edge of the rectangle, as a mathematical integer.
    pub open spec fn spec_bottom(self) -> int {
        self.origin_y + self.height
    }

    /// Whether the point `(x, y)` lies inside the rectangle.
    pub open spec fn spec_contains(self, x: int, y: int) -> bool {
        self.origin_x <= x < self.spec_right() && self.origin_y <= y < self.spec_bottom()
    }

    /// Intersection of two rectangles: `None` when they do not overlap,
    /// otherwise the rectangle of exactly the points inside both.
    pub fn intersection(&self, other: &Rect) -> (r: Option<Rect>)
        requires
            self.width <= i64::MAX,
            self.height <= i64::MAX,
            other.width <= i64::MAX,
            other.height <= i64::MAX,
            self.spec_right() <= i64::MAX,
            self.spec_bottom() <= i64::MAX,
            other.spec_right() <= i64::MAX,
            other.spec_bottom() <= i64::MAX,
        ensures
            match r {
                Some(rect) => {
                    &&& forall|x: int, y: int|
                        rect.spec_contains(x, y) <==> (#[trigger] self.spec_contains(x, y)
                            && other.spec_contains(x, y))
                    &&& rect.width > 0 && rect.height > 0
                },
                None => forall|x: int, y: int|
                    !(#[trigger] self.spec_contains(x, y) && other.spec_contains(x, y)),
            },
    {
        let left = if self.origin_x > other.origin_x {
            self.origin_x
        } else {
            other.origin_x
        };
        let top = if self.origin_y > other.origin_y {
            self.origin_y
        } else {
            other.origin_y
        };
        let self_right = self.origin_x + (self.width as i64);
        let self_bottom = self.origin_y + (self.height as i64);
        let other_right = other.origin_x + (other.width as i64);
        let other_bottom = other.origin_y + (other.height as i64);
        let right = if self_right < other_right {
            self_right
        } else {
            other_right
        };
        let bottom = if self_bottom < other_bottom {
            self_bottom
        } else {
            other_bottom
        };
        if left < right && top < bottom {
            Some(
                Rect {
                    origin_x: left,
                    origin_y: top,
                    width: (right - left) as u64,
                    height: (bottom - top) as u64,
                },
            )
        } else {
            None
        }
    }
}

} // verus!
