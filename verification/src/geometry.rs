//! Axis-aligned rectangles in pixel coordinates.

use vstd::prelude::*;

verus! {

/// A rectangle of pixels: its top-left corner and its size. Any corner and
/// any size make a rectangle; one without width or height holds no pixel.
#[derive(Clone, Copy, Debug, PartialEq, Eq, Structural)]
pub struct Rect {
    pub left: i32,
    pub top: i32,
    pub width: u32,
    pub height: u32,
}

/// The top-left corner of a rectangle that has no size yet.
#[derive(Clone, Copy, Debug, PartialEq, Eq, Structural)]
pub struct RectPosition {
    pub left: i32,
    pub top: i32,
}

/// The larger of two integers.
pub open spec fn larger(a: int, b: int) -> int {
    if a >= b {
        a
    } else {
        b
    }
}

/// The smaller of two integers.
pub open spec fn smaller(a: int, b: int) -> int {
    if a <= b {
        a
    } else {
        b
    }
}

/// The pixels that two rectangles share, as a rectangle, or `None` when
/// they share none.
pub open spec fn intersection(a: Rect, b: Rect) -> Option<Rect> {
    let left = larger(a.left as int, b.left as int);
    let top = larger(a.top as int, b.top as int);
    let right = smaller(a.right(), b.right());
    let bottom = smaller(a.bottom(), b.bottom());
    if right < left || bottom < top {
        None
    } else {
        Some(
            Rect {
                left: left as i32,
                top: top as i32,
                width: (right - left + 1) as u32,
                height: (bottom - top + 1) as u32,
            },
        )
    }
}

impl Rect {
    /// The greatest x-coordinate inside the rectangle; for a rectangle
    /// without width, the coordinate before its left edge.
    pub open spec fn right(self) -> int {
        self.left + self.width - 1
    }

    /// The greatest y-coordinate inside the rectangle; for a rectangle
    /// without height, the coordinate before its top edge.
    pub open spec fn bottom(self) -> int {
        self.top + self.height - 1
    }

    /// Whether the pixel `(x, y)` lies inside the rectangle.
    pub open spec fn contains(self, x: int, y: int) -> bool {
        self.left <= x <= self.right() && self.top <= y <= self.bottom()
    }

    /// Starts a rectangle at its top-left corner; `of_size` completes it.
    pub fn at(x: i32, y: i32) -> (p: RectPosition)
        ensures
            p == (RectPosition { left: x, top: y }),
    {
        RectPosition { left: x, top: y }
    }

    /// The pixels shared with `other`, or `None` when the two share none.
    /// The far edges are computed in 64 bits, so no rectangle is out of range.
    pub fn intersect(self, other: Rect) -> (r: Option<Rect>)
        ensures
            r == intersection(self, other),
    {
        let left: i32 = if self.left >= other.left { self.left } else { other.left };
        let top: i32 = if self.top >= other.top { self.top } else { other.top };
        let self_right: i64 = self.left as i64 + self.width as i64 - 1;
        let other_right: i64 = other.left as i64 + other.width as i64 - 1;
        let self_bottom: i64 = self.top as i64 + self.height as i64 - 1;
        let other_bottom: i64 = other.top as i64 + other.height as i64 - 1;
        let right: i64 = if self_right <= other_right { self_right } else { other_right };
        let bottom: i64 = if self_bottom <= other_bottom { self_bottom } else { other_bottom };
        if right < left as i64 || bottom < top as i64 {
            None
        } else {
            Some(
                Rect {
                    left,
                    top,
                    width: (right - left as i64 + 1) as u32,
                    height: (bottom - top as i64 + 1) as u32,
                },
            )
        }
    }
}

impl RectPosition {
    /// Completes a rectangle with its size, which must not be empty.
    pub fn of_size(self, width: u32, height: u32) -> (r: Rect)
        requires
            width > 0,
            height > 0,
        ensures
            r == (Rect { left: self.left, top: self.top, width, height }),
    {
        Rect { left: self.left, top: self.top, width, height }
    }
}

/// A pixel lies in the intersection of two rectangles exactly when it lies in
/// both, and rectangles without an intersection share no pixel.
pub proof fn lemma_intersection_is_shared_pixels(a: Rect, b: Rect, x: int, y: int)
    ensures
        match intersection(a, b) {
            Some(shared) => shared.contains(x, y) <==> a.contains(x, y) && b.contains(x, y),
            None => !(a.contains(x, y) && b.contains(x, y)),
        },
{
}

} // verus!
