//! Integer points and axis-aligned rectangles.

use vstd::prelude::*;

verus! {

/// A position in whole pixels, relative to the top-left corner of the
/// viewport.
#[derive(Clone, Copy, Debug, PartialEq, Eq, Structural)]
pub struct Point {
    pub x: u32,
    pub y: u32,
}

/// An axis-aligned rectangle in whole units.
///
/// Input regions use absolute world units, the viewport uses pixels. Only the
/// size of a viewport matters: everything on screen is placed relative to its
/// top-left corner.
#[derive(Clone, Copy, Debug, PartialEq, Eq, Structural)]
pub struct Rectangle {
    pub x: u32,
    pub y: u32,
    pub width: u32,
    pub height: u32,
}

pub open spec fn min_int(a: int, b: int) -> int {
    if a <= b {
        a
    } else {
        b
    }
}

pub open spec fn max_int(a: int, b: int) -> int {
    if a >= b {
        a
    } else {
        b
    }
}

impl Rectangle {
    /// The far edges of the rectangle are representable.
    pub open spec fn wf(self) -> bool {
        self.x + self.width <= u32::MAX && self.y + self.height <= u32::MAX
    }

    pub open spec fn has_area(self) -> bool {
        self.width > 0 && self.height > 0
    }

    pub open spec fn right(self) -> int {
        self.x + self.width
    }

    pub open spec fn bottom(self) -> int {
        self.y + self.height
    }

    /// The rectangle at the origin with no extent.
    pub open spec fn zero_spec() -> Rectangle {
        Rectangle { x: 0, y: 0, width: 0, height: 0 }
    }

    /// The smallest rectangle enclosing both, where a rectangle without area
    /// encloses nothing: if `self` has no area the result is `other`, and if
    /// only `other` has no area the result is `self`.
    pub open spec fn union_spec(self, other: Rectangle) -> Rectangle {
        if !self.has_area() {
            other
        } else if !other.has_area() {
            self
        } else {
            let x = min_int(self.x as int, other.x as int);
            let y = min_int(self.y as int, other.y as int);
            Rectangle {
                x: x as u32,
                y: y as u32,
                width: (max_int(self.right(), other.right()) - x) as u32,
                height: (max_int(self.bottom(), other.bottom()) - y) as u32,
            }
        }
    }

    pub fn zero() -> (out: Rectangle)
        ensures
            out == Rectangle::zero_spec(),
            out.wf(),
    {
        Rectangle { x: 0, y: 0, width: 0, height: 0 }
    }

    /// Whether the rectangle covers any area at all.
    pub fn covers_area(&self) -> (out: bool)
        ensures
            out == self.has_area(),
    {
        self.width > 0 && self.height > 0
    }

    pub fn union(&self, other: &Rectangle) -> (out: Rectangle)
        requires
            self.wf(),
            other.wf(),
        ensures
            out == self.union_spec(*other),
            out.wf(),
    {
        if !self.covers_area() {
            *other
        } else if !other.covers_area() {
            *self
        } else {
            let x: u32 = if self.x <= other.x { self.x } else { other.x };
            let y: u32 = if self.y <= other.y { self.y } else { other.y };
            let self_right: u32 = self.x + self.width;
            let other_right: u32 = other.x + other.width;
            let self_bottom: u32 = self.y + self.height;
            let other_bottom: u32 = other.y + other.height;
            let right: u32 = if self_right >= other_right { self_right } else { other_right };
            let bottom: u32 = if self_bottom >= other_bottom { self_bottom } else { other_bottom };
            Rectangle { x, y, width: right - x, height: bottom - y }
        }
    }
}

/// Uniting two rectangles that both cover area gives exactly the min and max
/// of their edges on each axis.
pub proof fn lemma_union_edges(a: Rectangle, b: Rectangle)
    requires
        a.wf(),
        b.wf(),
        a.has_area(),
        b.has_area(),
    ensures
        a.union_spec(b).x == min_int(a.x as int, b.x as int),
        a.union_spec(b).y == min_int(a.y as int, b.y as int),
        a.union_spec(b).right() == max_int(a.right(), b.right()),
        a.union_spec(b).bottom() == max_int(a.bottom(), b.bottom()),
        a.union_spec(b).has_area(),
        a.union_spec(b).wf(),
{
}

} // verus!
