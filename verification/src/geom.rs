//! Geometry and layout-constraint primitives.
//!
//! All geometry is expressed in unsigned integer surface coordinates.
//! Arithmetic saturates at `u32::MAX`, so every operation is total; the
//! saturation point is stated exactly in each contract.

use vstd::prelude::*;

verus! {

/// A point in the coordinate space of the current paint surface.
#[derive(Clone, Copy, Debug, PartialEq, Eq, Structural)]
pub struct Point {
    pub x: u32,
    pub y: u32,
}

/// A width/height pair.
#[derive(Clone, Copy, Debug, PartialEq, Eq, Structural)]
pub struct Size {
    pub width: u32,
    pub height: u32,
}

/// An absolute, axis-aligned rectangle, derived top-down by a parent
/// positioning a child.
#[derive(Clone, Copy, Debug, PartialEq, Eq, Structural)]
pub struct Rect {
    pub x0: u32,
    pub y0: u32,
    pub x1: u32,
    pub y1: u32,
}

/// A per-axis optional maximum extent (`None` = unconstrained).  Created
/// fresh for every layout call and never stored.
#[derive(Clone, Copy, Debug, PartialEq, Eq, Structural)]
pub struct LayoutConstraint {
    pub x: Option<u32>,
    pub y: Option<u32>,
}

/// The primary axis of a flex container: `Horizontal` for a row,
/// `Vertical` for a column.
#[derive(Clone, Copy, Debug, PartialEq, Eq, Structural)]
pub enum Axis {
    Horizontal,
    Vertical,
}

/// `min(a + b, u32::MAX)` over mathematical integers.
pub open spec fn sat32(v: int) -> int {
    if v > u32::MAX as int {
        u32::MAX as int
    } else {
        v
    }
}

/// Saturating addition on surface coordinates.
pub fn sat_add(a: u32, b: u32) -> (r: u32)
    ensures
        r as int == sat32(a as int + b as int),
{
    if a <= u32::MAX - b {
        a + b
    } else {
        u32::MAX
    }
}

/// Subtraction floored at zero.
pub fn sat_sub(a: u32, b: u32) -> (r: u32)
    ensures
        r as int == if a >= b { a as int - b as int } else { 0int },
{
    if a >= b {
        a - b
    } else {
        0
    }
}

impl Size {
    pub open spec fn zero_spec() -> Size {
        Size { width: 0, height: 0 }
    }

    pub fn zero() -> (r: Size)
        ensures
            r == Size::zero_spec(),
    {
        Size { width: 0, height: 0 }
    }

    /// The extent of this size along `axis`.
    pub open spec fn primary_spec(self, axis: Axis) -> u32 {
        match axis {
            Axis::Horizontal => self.width,
            Axis::Vertical => self.height,
        }
    }

    /// The extent of this size across `axis`.
    pub open spec fn secondary_spec(self, axis: Axis) -> u32 {
        match axis {
            Axis::Horizontal => self.height,
            Axis::Vertical => self.width,
        }
    }

    pub fn primary(self, axis: Axis) -> (r: u32)
        ensures
            r == self.primary_spec(axis),
    {
        match axis {
            Axis::Horizontal => self.width,
            Axis::Vertical => self.height,
        }
    }

    pub fn secondary(self, axis: Axis) -> (r: u32)
        ensures
            r == self.secondary_spec(axis),
    {
        match axis {
            Axis::Horizontal => self.height,
            Axis::Vertical => self.width,
        }
    }

    /// Build a size from a primary and a secondary extent along `axis`.
    pub open spec fn from_axes_spec(axis: Axis, primary: u32, secondary: u32) -> Size {
        match axis {
            Axis::Horizontal => Size { width: primary, height: secondary },
            Axis::Vertical => Size { width: secondary, height: primary },
        }
    }

    pub fn from_axes(axis: Axis, primary: u32, secondary: u32) -> (r: Size)
        ensures
            r == Size::from_axes_spec(axis, primary, secondary),
    {
        match axis {
            Axis::Horizontal => Size { width: primary, height: secondary },
            Axis::Vertical => Size { width: secondary, height: primary },
        }
    }
}

impl Rect {
    /// The rectangle anchored at `origin` extending by `size`, clipped to
    /// the coordinate space where it would overflow.
    pub open spec fn from_origin_size_spec(origin: Point, size: Size) -> Rect {
        Rect {
            x0: origin.x,
            y0: origin.y,
            x1: sat32(origin.x as int + size.width as int) as u32,
            y1: sat32(origin.y as int + size.height as int) as u32,
        }
    }

    pub fn from_origin_size(origin: Point, size: Size) -> (r: Rect)
        ensures
            r == Rect::from_origin_size_spec(origin, size),
    {
        Rect {
            x0: origin.x,
            y0: origin.y,
            x1: sat_add(origin.x, size.width),
            y1: sat_add(origin.y, size.height),
        }
    }

    pub open spec fn origin_spec(self) -> Point {
        Point { x: self.x0, y: self.y0 }
    }

    pub fn origin(self) -> (r: Point)
        ensures
            r == self.origin_spec(),
    {
        Point { x: self.x0, y: self.y0 }
    }

    pub open spec fn width_spec(self) -> int {
        self.x1 - self.x0
    }

    pub open spec fn height_spec(self) -> int {
        self.y1 - self.y0
    }

    /// The width/height of the rectangle; zero when the corner order is
    /// degenerate.
    pub open spec fn size_spec(self) -> Size {
        Size {
            width: if self.x1 >= self.x0 {
                (self.x1 - self.x0) as u32
            } else {
                0u32
            },
            height: if self.y1 >= self.y0 {
                (self.y1 - self.y0) as u32
            } else {
                0u32
            },
        }
    }

    pub fn size(self) -> (r: Size)
        ensures
            r == self.size_spec(),
    {
        Size { width: sat_sub(self.x1, self.x0), height: sat_sub(self.y1, self.y0) }
    }

    /// Whether `p` falls inside this rectangle (edges included).
    pub open spec fn contains_spec(self, p: Point) -> bool {
        self.x0 <= p.x && p.x <= self.x1 && self.y0 <= p.y && p.y <= self.y1
    }

    pub fn contains(self, p: Point) -> (r: bool)
        ensures
            r == self.contains_spec(p),
    {
        self.x0 <= p.x && p.x <= self.x1 && self.y0 <= p.y && p.y <= self.y1
    }

    /// Shrink the rectangle by `inset` on every side; sides collapse to the
    /// center line instead of crossing when the rectangle is too small.
    pub open spec fn inset_spec(self, inset: u32) -> Rect {
        let x0 = sat32(self.x0 as int + inset as int) as u32;
        let y0 = sat32(self.y0 as int + inset as int) as u32;
        let x1 = if self.x1 >= inset && self.x1 - inset >= x0 {
            (self.x1 - inset) as u32
        } else {
            x0
        };
        let y1 = if self.y1 >= inset && self.y1 - inset >= y0 {
            (self.y1 - inset) as u32
        } else {
            y0
        };
        Rect { x0, y0, x1, y1 }
    }

    pub fn inset(self, inset: u32) -> (r: Rect)
        ensures
            r == self.inset_spec(inset),
    {
        let x0: u32 = sat_add(self.x0, inset);
        let y0: u32 = sat_add(self.y0, inset);
        let x1: u32 = sat_sub(self.x1, inset);
        let y1: u32 = sat_sub(self.y1, inset);
        Rect {
            x0,
            y0,
            x1: if x1 >= x0 { x1 } else { x0 },
            y1: if y1 >= y0 { y1 } else { y0 },
        }
    }
}

impl LayoutConstraint {
    pub fn new(x: Option<u32>, y: Option<u32>) -> (r: LayoutConstraint)
        ensures
            r.x == x,
            r.y == y,
    {
        LayoutConstraint { x, y }
    }

    /// The constraint along `axis`.
    pub open spec fn primary_spec(self, axis: Axis) -> Option<u32> {
        match axis {
            Axis::Horizontal => self.x,
            Axis::Vertical => self.y,
        }
    }

    /// The constraint across `axis`.
    pub open spec fn secondary_spec(self, axis: Axis) -> Option<u32> {
        match axis {
            Axis::Horizontal => self.y,
            Axis::Vertical => self.x,
        }
    }

    pub fn primary(self, axis: Axis) -> (r: Option<u32>)
        ensures
            r == self.primary_spec(axis),
    {
        match axis {
            Axis::Horizontal => self.x,
            Axis::Vertical => self.y,
        }
    }

    pub fn secondary(self, axis: Axis) -> (r: Option<u32>)
        ensures
            r == self.secondary_spec(axis),
    {
        match axis {
            Axis::Horizontal => self.y,
            Axis::Vertical => self.x,
        }
    }

    /// Rebuild a constraint from a primary and a secondary part.
    pub open spec fn from_axes_spec(axis: Axis, primary: Option<u32>, secondary: Option<u32>) -> LayoutConstraint {
        match axis {
            Axis::Horizontal => LayoutConstraint { x: primary, y: secondary },
            Axis::Vertical => LayoutConstraint { x: secondary, y: primary },
        }
    }

    pub fn from_axes(axis: Axis, primary: Option<u32>, secondary: Option<u32>) -> (r: LayoutConstraint)
        ensures
            r == LayoutConstraint::from_axes_spec(axis, primary, secondary),
    {
        match axis {
            Axis::Horizontal => LayoutConstraint { x: primary, y: secondary },
            Axis::Vertical => LayoutConstraint { x: secondary, y: primary },
        }
    }
}

/// `max(measured, given)` when a constraint is given: a container never
/// reports smaller than what it was asked to fill, but may report larger
/// when content overflows.
pub open spec fn clamp_reported_spec(constraint: Option<u32>, measured: u32) -> u32 {
    match constraint {
        Some(given) => if measured >= given { measured } else { given },
        None => measured,
    }
}

pub fn clamp_reported(constraint: Option<u32>, measured: u32) -> (r: u32)
    ensures
        r == clamp_reported_spec(constraint, measured),
{
    match constraint {
        Some(given) => if measured >= given { measured } else { given },
        None => measured,
    }
}

} // verus!
