//! Rectangles and the arithmetic that reconciles tiled and floating geometry.

use vstd::prelude::*;

verus! {

/// A rectangle: a position and a size, or a delta between two rectangles.
#[derive(Clone, Copy, Debug, PartialEq, Eq, Structural)]
pub struct Rect {
    pub x: i32,
    pub y: i32,
    pub w: i32,
    pub h: i32,
}

/// Whether an integer is representable as a rectangle coordinate.
pub open spec fn is_coordinate(a: int) -> bool {
    i32::MIN <= a <= i32::MAX
}

/// The rectangle an optional rectangle stands for: itself, or the zero rectangle.
pub open spec fn or_zero(r: Option<Rect>) -> Rect {
    match r {
        Some(rect) => rect,
        None => Rect::zero_rect(),
    }
}

impl Rect {
    /// The rectangle at the origin with no extent.
    pub open spec fn zero_rect() -> Rect {
        Rect { x: 0, y: 0, w: 0, h: 0 }
    }

    /// Whether every field of `self - other` is representable.
    pub open spec fn can_subtract(self, other: Rect) -> bool {
        &&& is_coordinate(self.x - other.x)
        &&& is_coordinate(self.y - other.y)
        &&& is_coordinate(self.w - other.w)
        &&& is_coordinate(self.h - other.h)
    }

    /// The field-wise difference `self - other`.
    pub open spec fn minus(self, other: Rect) -> Rect {
        Rect {
            x: (self.x - other.x) as i32,
            y: (self.y - other.y) as i32,
            w: (self.w - other.w) as i32,
            h: (self.h - other.h) as i32,
        }
    }

    pub fn new(x: i32, y: i32, w: i32, h: i32) -> (r: Rect)
        ensures
            r == (Rect { x, y, w, h }),
    {
        Rect { x, y, w, h }
    }

    pub fn zero() -> (r: Rect)
        ensures
            r == Rect::zero_rect(),
    {
        Rect { x: 0, y: 0, w: 0, h: 0 }
    }

    /// Whether `self - other` is representable, decided at run time.
    pub fn subtractable(self, other: Rect) -> (ok: bool)
        ensures
            ok == self.can_subtract(other),
    {
        self.x.checked_sub(other.x).is_some() && self.y.checked_sub(other.y).is_some()
            && self.w.checked_sub(other.w).is_some() && self.h.checked_sub(other.h).is_some()
    }

    /// The field-wise difference `self - other`: how far `self` deviates from `other`.
    pub fn difference(self, other: Rect) -> (r: Rect)
        requires
            self.can_subtract(other),
        ensures
            r == self.minus(other),
            r.x == self.x - other.x,
            r.y == self.y - other.y,
            r.w == self.w - other.w,
            r.h == self.h - other.h,
    {
        Rect { x: self.x - other.x, y: self.y - other.y, w: self.w - other.w, h: self.h - other.h }
    }
}

/// The rectangle inside `r`, or the zero rectangle where there is none.
pub fn unwrap_or_zero(r: Option<Rect>) -> (rect: Rect)
    ensures
        rect == or_zero(r),
{
    match r {
        Some(rect) => rect,
        None => Rect::zero(),
    }
}

} // verus!
