//! Integer geometry: points, sizes, rectangles and layout limits.
//!
//! Positions are `i32`, extents are `u32`. A position that would leave the
//! range of `i32` stays at the nearest end of it, and an extent of
//! [`UNBOUNDED`] stands for "no bound at all".

use vstd::prelude::*;

verus! {

/// The extent that stands for "no bound": shrinking it leaves it unbounded.
pub const UNBOUNDED: u32 = 0xffff_ffff;

/// The position nearest to `v` that an `i32` can hold.
pub open spec fn saturate(v: int) -> i32 {
    if v < i32::MIN {
        i32::MIN
    } else if v > i32::MAX {
        i32::MAX
    } else {
        v as i32
    }
}

/// Brings a position computed in 64 bits back to a coordinate.
pub fn saturating(v: i64) -> (r: i32)
    ensures
        r == saturate(v as int),
{
    if v < -2147483648 {
        -2147483648
    } else if v > 2147483647 {
        2147483647
    } else {
        v as i32
    }
}

/// A position on the plane.
#[derive(Clone, Copy, Debug, PartialEq, Eq, Structural)]
pub struct Point {
    pub x: i32,
    pub y: i32,
}

impl Point {
    /// The point `(x, y)`.
    pub fn new(x: i32, y: i32) -> (p: Self)
        ensures
            p == (Point { x, y }),
    {
        Point { x, y }
    }

    /// The point `(0, 0)`, which also stands in for a position nobody reported.
    pub open spec fn spec_origin() -> Point {
        Point { x: 0, y: 0 }
    }

    /// The point `(0, 0)`.
    #[verifier::when_used_as_spec(spec_origin)]
    pub fn origin() -> (p: Self)
        ensures
            p == Self::spec_origin(),
    {
        Point { x: 0, y: 0 }
    }
}

/// A width and a height.
#[derive(Clone, Copy, Debug, PartialEq, Eq, Structural)]
pub struct Size {
    pub width: u32,
    pub height: u32,
}

impl Size {
    /// The size `width` by `height`.
    pub fn new(width: u32, height: u32) -> (s: Self)
        ensures
            s == (Size { width, height }),
    {
        Size { width, height }
    }
}

/// An axis-aligned rectangle: its top-left corner and its size.
#[derive(Clone, Copy, Debug, PartialEq, Eq, Structural)]
pub struct Rectangle {
    pub x: i32,
    pub y: i32,
    pub width: u32,
    pub height: u32,
}

impl Rectangle {
    /// The rectangle with the given corner and size.
    pub fn new(top_left: Point, size: Size) -> (r: Self)
        ensures
            r == (Rectangle { x: top_left.x, y: top_left.y, width: size.width, height: size.height }),
    {
        Rectangle { x: top_left.x, y: top_left.y, width: size.width, height: size.height }
    }

    /// The top-left corner.
    pub open spec fn spec_position(&self) -> Point {
        Point { x: self.x, y: self.y }
    }

    /// The top-left corner.
    #[verifier::when_used_as_spec(spec_position)]
    pub fn position(&self) -> (p: Point)
        ensures
            p == self.spec_position(),
    {
        Point { x: self.x, y: self.y }
    }

    /// The width and height.
    pub open spec fn spec_size(&self) -> Size {
        Size { width: self.width, height: self.height }
    }

    /// The width and height.
    #[verifier::when_used_as_spec(spec_size)]
    pub fn size(&self) -> (s: Size)
        ensures
            s == self.spec_size(),
    {
        Size { width: self.width, height: self.height }
    }

    /// A point lies in a rectangle grown by `margin` on all four sides when it
    /// is at or after the grown left and top edges and strictly before the
    /// grown right and bottom edges.
    pub open spec fn spec_contains_within(&self, point: Point, margin: u16) -> bool {
        &&& self.x - margin <= point.x < self.x + self.width + margin
        &&& self.y - margin <= point.y < self.y + self.height + margin
    }

    /// Whether `point` lies in this rectangle grown by `margin` on all sides.
    #[verifier::when_used_as_spec(spec_contains_within)]
    pub fn contains_within(&self, point: Point, margin: u16) -> (inside: bool)
        ensures
            inside == self.spec_contains_within(point, margin),
    {
        let m: i64 = margin as i64;
        let px: i64 = point.x as i64;
        let py: i64 = point.y as i64;
        let left: i64 = self.x as i64 - m;
        let top: i64 = self.y as i64 - m;
        let right: i64 = self.x as i64 + self.width as i64 + m;
        let bottom: i64 = self.y as i64 + self.height as i64 + m;
        left <= px && px < right && top <= py && py < bottom
    }

    /// Membership in the rectangle itself: the left and top edges belong to
    /// it, the right and bottom edges do not.
    pub open spec fn spec_contains(&self, point: Point) -> bool {
        self.spec_contains_within(point, 0)
    }

    /// Whether `point` lies in this rectangle.
    #[verifier::when_used_as_spec(spec_contains)]
    pub fn contains(&self, point: Point) -> (inside: bool)
        ensures
            inside == self.spec_contains(point),
    {
        self.contains_within(point, 0)
    }
}

/// What is left of `extent` after taking `by` away from it: never less than
/// zero. Taking an unbounded amount away leaves nothing, whatever there was;
/// taking a bounded amount away from an unbounded extent leaves it unbounded.
pub open spec fn shrunk(extent: u32, by: u32) -> u32 {
    if by == UNBOUNDED {
        0
    } else if extent == UNBOUNDED {
        UNBOUNDED
    } else if extent <= by {
        0
    } else {
        (extent - by) as u32
    }
}

/// Computes [`shrunk`].
pub fn shrink_extent(extent: u32, by: u32) -> (r: u32)
    ensures
        r == shrunk(extent, by),
{
    if by == UNBOUNDED {
        0
    } else if extent == UNBOUNDED {
        UNBOUNDED
    } else if extent <= by {
        0
    } else {
        extent - by
    }
}

/// The smallest and the largest size a child may take.
#[derive(Clone, Copy, Debug, PartialEq, Eq, Structural)]
pub struct Limits {
    pub min: Size,
    pub max: Size,
}

impl Limits {
    /// Limits between `min` and `max`.
    pub fn new(min: Size, max: Size) -> (l: Self)
        ensures
            l == (Limits { min, max }),
    {
        Limits { min, max }
    }

    /// These limits with `size` taken away from both ends, in both directions.
    pub open spec fn spec_shrink(&self, size: Size) -> Limits {
        Limits {
            min: Size {
                width: shrunk(self.min.width, size.width),
                height: shrunk(self.min.height, size.height),
            },
            max: Size {
                width: shrunk(self.max.width, size.width),
                height: shrunk(self.max.height, size.height),
            },
        }
    }

    /// Shrinks the limits by `size`.
    #[verifier::when_used_as_spec(spec_shrink)]
    pub fn shrink(&self, size: Size) -> (l: Limits)
        ensures
            l == self.spec_shrink(size),
    {
        Limits {
            min: Size {
                width: shrink_extent(self.min.width, size.width),
                height: shrink_extent(self.min.height, size.height),
            },
            max: Size {
                width: shrink_extent(self.max.width, size.width),
                height: shrink_extent(self.max.height, size.height),
            },
        }
    }

    /// These limits with a padding of `padding` on each of the four sides
    /// taken away: twice the padding in each direction.
    pub open spec fn spec_pad(&self, padding: u16) -> Limits {
        self.spec_shrink(Size { width: (2 * padding) as u32, height: (2 * padding) as u32 })
    }

    /// Shrinks the limits by a uniform padding.
    #[verifier::when_used_as_spec(spec_pad)]
    pub fn pad(&self, padding: u16) -> (l: Limits)
        ensures
            l == self.spec_pad(padding),
    {
        let both: u32 = 2 * (padding as u32);
        self.shrink(Size { width: both, height: both })
    }
}

} // verus!
