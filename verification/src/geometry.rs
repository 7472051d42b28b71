//! Points, vectors, sizes and rectangles on the fixed-point grid.
//!
//! Sums that leave the range of `i32` saturate; every contract states the
//! exact integer result before saturation.

use vstd::prelude::*;
use crate::fixed::{saturate, saturating};

verus! {

/// A position, in canvas-local or in screen space.
#[derive(Clone, Copy, Debug, PartialEq, Eq, Structural)]
pub struct Point {
    pub x: i32,
    pub y: i32,
}

/// A displacement between two points.
#[derive(Clone, Copy, Debug, PartialEq, Eq, Structural)]
pub struct Vector {
    pub x: i32,
    pub y: i32,
}

/// An extent in two dimensions.
#[derive(Clone, Copy, Debug, PartialEq, Eq, Structural)]
pub struct Size {
    pub width: i32,
    pub height: i32,
}

/// An axis-aligned box given by its top-left corner and its extent.
#[derive(Clone, Copy, Debug, PartialEq, Eq, Structural)]
pub struct Rectangle {
    pub x: i32,
    pub y: i32,
    pub width: i32,
    pub height: i32,
}

/// Space reserved on each side of a box, in whole pixels.
#[derive(Clone, Copy, Debug, PartialEq, Eq, Structural)]
pub struct Padding {
    pub top: u16,
    pub right: u16,
    pub bottom: u16,
    pub left: u16,
}

impl Point {
    pub open spec fn spec_origin() -> Point {
        Point { x: 0, y: 0 }
    }

    #[verifier::when_used_as_spec(spec_origin)]
    pub fn origin() -> (p: Point)
        ensures
            p == Point::spec_origin(),
    {
        Point { x: 0, y: 0 }
    }

    pub fn new(x: i32, y: i32) -> (p: Point)
        ensures
            p == (Point { x, y }),
    {
        Point { x, y }
    }

    /// The displacement that leads from `origin` to `self`.
    pub open spec fn spec_vector_from(self, origin: Point) -> Vector {
        Vector {
            x: saturate(self.x - origin.x),
            y: saturate(self.y - origin.y),
        }
    }

    pub fn vector_from(self, origin: Point) -> (v: Vector)
        ensures
            v == self.spec_vector_from(origin),
    {
        Vector {
            x: saturating(self.x as i64 - origin.x as i64),
            y: saturating(self.y as i64 - origin.y as i64),
        }
    }

    /// The point reached from `self` by the displacement `by`.
    pub open spec fn spec_translate(self, by: Vector) -> Point {
        Point { x: saturate(self.x + by.x), y: saturate(self.y + by.y) }
    }

    pub fn translate(self, by: Vector) -> (p: Point)
        ensures
            p == self.spec_translate(by),
    {
        Point {
            x: saturating(self.x as i64 + by.x as i64),
            y: saturating(self.y as i64 + by.y as i64),
        }
    }
}

impl Vector {
    pub open spec fn spec_zero() -> Vector {
        Vector { x: 0, y: 0 }
    }

    #[verifier::when_used_as_spec(spec_zero)]
    pub fn zero() -> (v: Vector)
        ensures
            v == Vector::spec_zero(),
    {
        Vector { x: 0, y: 0 }
    }

    pub fn new(x: i32, y: i32) -> (v: Vector)
        ensures
            v == (Vector { x, y }),
    {
        Vector { x, y }
    }

    /// Componentwise sum.
    pub open spec fn spec_plus(self, other: Vector) -> Vector {
        Vector { x: saturate(self.x + other.x), y: saturate(self.y + other.y) }
    }

    pub fn plus(self, other: Vector) -> (v: Vector)
        ensures
            v == self.spec_plus(other),
    {
        Vector {
            x: saturating(self.x as i64 + other.x as i64),
            y: saturating(self.y as i64 + other.y as i64),
        }
    }
}

impl Padding {
    pub fn new(top: u16, right: u16, bottom: u16, left: u16) -> (p: Padding)
        ensures
            p == (Padding { top, right, bottom, left }),
    {
        Padding { top, right, bottom, left }
    }

    /// Left plus right padding, in fixed-point units.
    pub open spec fn spec_horizontal(self) -> int {
        (self.left + self.right) * crate::fixed::UNIT
    }

    /// Top plus bottom padding, in fixed-point units.
    pub open spec fn spec_vertical(self) -> int {
        (self.top + self.bottom) * crate::fixed::UNIT
    }

    pub fn horizontal(self) -> (h: i32)
        ensures
            h == self.spec_horizontal(),
    {
        (self.left as i32 + self.right as i32) * crate::fixed::UNIT
    }

    pub fn vertical(self) -> (v: i32)
        ensures
            v == self.spec_vertical(),
    {
        (self.top as i32 + self.bottom as i32) * crate::fixed::UNIT
    }
}

impl Size {
    pub open spec fn spec_zero() -> Size {
        Size { width: 0, height: 0 }
    }

    #[verifier::when_used_as_spec(spec_zero)]
    pub fn zero() -> (s: Size)
        ensures
            s == Size::spec_zero(),
    {
        Size { width: 0, height: 0 }
    }

    pub fn new(width: i32, height: i32) -> (s: Size)
        ensures
            s == (Size { width, height }),
    {
        Size { width, height }
    }

    /// The extent of a box that holds `self` inside `padding`.
    pub open spec fn spec_pad(self, padding: Padding) -> Size {
        Size {
            width: saturate(self.width + padding.spec_horizontal()),
            height: saturate(self.height + padding.spec_vertical()),
        }
    }

    pub fn pad(self, padding: Padding) -> (s: Size)
        ensures
            s == self.spec_pad(padding),
    {
        Size {
            width: saturating(self.width as i64 + padding.horizontal() as i64),
            height: saturating(self.height as i64 + padding.vertical() as i64),
        }
    }

    /// What is left of `self` once `by` is taken off, never below zero.
    pub open spec fn spec_shrink(self, by: Size) -> Size {
        Size {
            width: if self.width - by.width < 0 {
                0
            } else {
                saturate(self.width - by.width)
            },
            height: if self.height - by.height < 0 {
                0
            } else {
                saturate(self.height - by.height)
            },
        }
    }

    pub fn shrink(self, by: Size) -> (s: Size)
        ensures
            s == self.spec_shrink(by),
    {
        let w: i64 = self.width as i64 - by.width as i64;
        let h: i64 = self.height as i64 - by.height as i64;
        Size {
            width: if w < 0 {
                0
            } else {
                saturating(w)
            },
            height: if h < 0 {
                0
            } else {
                saturating(h)
            },
        }
    }
}

impl Rectangle {
    pub fn new(top_left: Point, size: Size) -> (r: Rectangle)
        ensures
            r == (Rectangle { x: top_left.x, y: top_left.y, width: size.width, height: size.height }),
    {
        Rectangle { x: top_left.x, y: top_left.y, width: size.width, height: size.height }
    }

    pub open spec fn spec_position(self) -> Point {
        Point { x: self.x, y: self.y }
    }

    pub fn position(&self) -> (p: Point)
        ensures
            p == self.spec_position(),
    {
        Point { x: self.x, y: self.y }
    }

    pub open spec fn spec_size(self) -> Size {
        Size { width: self.width, height: self.height }
    }

    pub fn size(&self) -> (s: Size)
        ensures
            s == self.spec_size(),
    {
        Size { width: self.width, height: self.height }
    }

    /// Whether `point` lies inside the box, its four edges included.
    pub open spec fn spec_contains(self, point: Point) -> bool {
        &&& self.x <= point.x <= self.x + self.width
        &&& self.y <= point.y <= self.y + self.height
    }

    pub fn contains(&self, point: Point) -> (inside: bool)
        ensures
            inside == self.spec_contains(point),
    {
        self.x <= point.x && point.x as i64 <= self.x as i64 + self.width as i64 && self.y
            <= point.y && point.y as i64 <= self.y as i64 + self.height as i64
    }

    /// The same box moved by `by`.
    pub open spec fn spec_translate(self, by: Vector) -> Rectangle {
        Rectangle {
            x: saturate(self.x + by.x),
            y: saturate(self.y + by.y),
            width: self.width,
            height: self.height,
        }
    }

    pub fn translate(self, by: Vector) -> (r: Rectangle)
        ensures
            r == self.spec_translate(by),
    {
        Rectangle {
            x: saturating(self.x as i64 + by.x as i64),
            y: saturating(self.y as i64 + by.y as i64),
            width: self.width,
            height: self.height,
        }
    }

    /// The box drawn in by `inset` on every side.
    pub open spec fn spec_inset(self, inset: i32) -> Rectangle {
        Rectangle {
            x: saturate(self.x + inset),
            y: saturate(self.y + inset),
            width: saturate(self.width - 2 * inset),
            height: saturate(self.height - 2 * inset),
        }
    }

    pub fn inset(self, inset: i32) -> (r: Rectangle)
        ensures
            r == self.spec_inset(inset),
    {
        Rectangle {
            x: saturating(self.x as i64 + inset as i64),
            y: saturating(self.y as i64 + inset as i64),
            width: saturating(self.width as i64 - 2 * (inset as i64)),
            height: saturating(self.height as i64 - 2 * (inset as i64)),
        }
    }

    /// Horizontal coordinate of the right edge.
    pub open spec fn right(self) -> int {
        self.x + self.width
    }

    /// Vertical coordinate of the centre, rounded down.
    pub open spec fn center_y(self) -> int {
        self.y + self.height / 2
    }
}

} // verus!
