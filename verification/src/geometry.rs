//! Sizes, four-sided offsets, points and rectangles.

use vstd::prelude::*;
use crate::number::{clamp_length, sat_add, Number};

verus! {

/// A width and a height.
#[derive(Clone, Copy, Debug, PartialEq, Eq)]
pub struct Size<T> {
    pub width: T,
    pub height: T,
}

/// One value for each side of a box.
#[derive(Clone, Copy, Debug, PartialEq, Eq)]
pub struct Offsets<T> {
    pub top: T,
    pub left: T,
    pub bottom: T,
    pub right: T,
}

/// A position in the coordinate space of the container bounds.
#[derive(Clone, Copy, Debug, PartialEq, Eq, Structural)]
pub struct LayoutPoint {
    pub x: i64,
    pub y: i64,
}

/// The bounds a tree is laid out into: where it starts, and how much room
/// there is on each axis, if that is known.
#[derive(Clone, Copy, Debug, PartialEq, Eq)]
pub struct LayoutRect {
    pub origin: LayoutPoint,
    pub size: Size<Number>,
}

/// The solved geometry of one box: the origin and size of its border box.
#[derive(Clone, Copy, Debug, PartialEq, Eq)]
pub struct PositionedRectangle {
    pub origin: LayoutPoint,
    pub size: Size<i64>,
}

impl Size<Number> {
    /// A size with neither side known.
    pub open spec fn spec_undefined() -> Size<Number> {
        Size { width: Number::Undefined, height: Number::Undefined }
    }

    /// A size with neither side known.
    pub fn undefined() -> (r: Size<Number>)
        ensures
            r == Size::spec_undefined(),
    {
        Size { width: Number::Undefined, height: Number::Undefined }
    }
}

impl Offsets<i64> {
    /// Left plus right, saturated.
    pub open spec fn spec_horizontal(self) -> i64 {
        clamp_length(self.left + self.right)
    }

    /// Top plus bottom, saturated.
    pub open spec fn spec_vertical(self) -> i64 {
        clamp_length(self.top + self.bottom)
    }

    /// Left plus right, saturated.
    pub fn horizontal(&self) -> (r: i64)
        ensures
            r == self.spec_horizontal(),
    {
        sat_add(self.left, self.right)
    }

    /// Top plus bottom, saturated.
    pub fn vertical(&self) -> (r: i64)
        ensures
            r == self.spec_vertical(),
    {
        sat_add(self.top, self.bottom)
    }
}

impl PositionedRectangle {
    /// The rectangle of a box that takes no room, at the origin.
    pub open spec fn spec_zero() -> PositionedRectangle {
        PositionedRectangle {
            origin: LayoutPoint { x: 0, y: 0 },
            size: Size { width: 0, height: 0 },
        }
    }

    /// The same rectangle moved by `(dx, dy)`, saturated.
    pub open spec fn spec_translate(self, dx: i64, dy: i64) -> PositionedRectangle {
        PositionedRectangle {
            origin: LayoutPoint {
                x: clamp_length(self.origin.x + dx),
                y: clamp_length(self.origin.y + dy),
            },
            size: self.size,
        }
    }

    /// Whether all four numbers are lengths and the size is not negative.
    pub open spec fn wf(self) -> bool {
        &&& crate::number::is_length(self.origin.x as int)
        &&& crate::number::is_length(self.origin.y as int)
        &&& 0 <= self.size.width <= crate::number::MAX_LENGTH
        &&& 0 <= self.size.height <= crate::number::MAX_LENGTH
    }

    /// The rectangle of a box that takes no room, at the origin.
    pub fn zero() -> (r: PositionedRectangle)
        ensures
            r == PositionedRectangle::spec_zero(),
    {
        PositionedRectangle {
            origin: LayoutPoint { x: 0, y: 0 },
            size: Size { width: 0, height: 0 },
        }
    }

    /// The same rectangle moved by `(dx, dy)`, saturated.
    pub fn translate(&self, dx: i64, dy: i64) -> (r: PositionedRectangle)
        ensures
            r == self.spec_translate(dx, dy),
    {
        PositionedRectangle {
            origin: LayoutPoint { x: sat_add(self.origin.x, dx), y: sat_add(self.origin.y, dy) },
            size: self.size,
        }
    }
}

} // verus!
