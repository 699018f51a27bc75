use vstd::prelude::*;

verus! {

/// An axis-aligned rectangle in whole pixels: top-left corner and size.
#[derive(Clone, Copy, PartialEq, Eq, Structural, Debug)]
pub struct Rect {
    pub x: i32,
    pub y: i32,
    pub w: i32,
    pub h: i32,
}

/// Two axis-aligned rectangles overlap when they share at least one point,
/// edges included: the left edge of each is no further right than the right
/// edge of the other, and likewise vertically.
pub open spec fn rects_overlap(a: Rect, b: Rect) -> bool {
    &&& a.x <= b.x + b.w
    &&& a.x + a.w >= b.x
    &&& a.y <= b.y + b.h
    &&& a.y + a.h >= b.y
}

impl Rect {
    /// Sizes are never negative.
    pub open spec fn wf(self) -> bool {
        self.w >= 0 && self.h >= 0
    }

    /// Closed-edge overlap test between `self` and `other`.
    pub fn overlaps(&self, other: &Rect) -> (r: bool)
        ensures
            r == rects_overlap(*self, *other),
    {
        (self.x as i64) <= (other.x as i64) + (other.w as i64)
            && (self.x as i64) + (self.w as i64) >= (other.x as i64)
            && (self.y as i64) <= (other.y as i64) + (other.h as i64)
            && (self.y as i64) + (self.h as i64) >= (other.y as i64)
    }
}

/// `v` clamped into the closed interval `[lo, hi]`.
pub open spec fn clamped(v: int, lo: int, hi: int) -> int {
    if v < lo {
        lo
    } else if v > hi {
        hi
    } else {
        v
    }
}

/// Adds `d` to `v` and clamps the sum into `[lo, hi]`, free of overflow for
/// any arguments.
pub fn add_clamped(v: i32, d: i32, lo: i32, hi: i32) -> (r: i32)
    requires
        lo <= hi,
    ensures
        r == clamped(v + d, lo as int, hi as int),
{
    let s: i64 = v as i64 + d as i64;
    if s < lo as i64 {
        lo
    } else if s > hi as i64 {
        hi
    } else {
        s as i32
    }
}

} // verus!
