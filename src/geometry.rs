//! Grid rectangles and the arithmetic on their coordinates.

use vstd::prelude::*;

verus! {

/// The largest coordinate or extent a grid cell address can hold.
pub const GRID_MAX: u16 = 65535;

/// An axis-aligned region of the grid: top-left corner `(x, y)` and extent
/// `width` by `height`, all in cells.
#[derive(Debug, Clone, Copy, PartialEq, Eq, Structural)]
pub struct Rect {
    pub x: u16,
    pub y: u16,
    pub width: u16,
    pub height: u16,
}

/// The integer `v` brought into the range of a grid coordinate: values below
/// zero become zero, values above the largest coordinate become the largest.
pub open spec fn clamp_coord(v: int) -> u16 {
    if v < 0 {
        0
    } else if v > GRID_MAX as int {
        GRID_MAX
    } else {
        v as u16
    }
}

/// Computes `clamp_coord(a + b - c)` without leaving machine integers.
pub fn clamped_sum(a: u16, b: u16, c: u16) -> (r: u16)
    ensures
        r == clamp_coord(a + b - c),
{
    let v: i32 = a as i32 + b as i32 - c as i32;
    if v < 0 {
        0
    } else if v > GRID_MAX as i32 {
        GRID_MAX
    } else {
        v as u16
    }
}

impl Rect {
    /// A rectangle with the given corner and extent.
    pub fn new(x: u16, y: u16, width: u16, height: u16) -> (r: Rect)
        ensures
            r == (Rect { x, y, width, height }),
    {
        Rect { x, y, width, height }
    }
}

impl Default for Rect {
    /// The empty rectangle at the origin.
    fn default() -> (r: Rect)
        ensures
            r == (Rect { x: 0, y: 0, width: 0, height: 0 }),
    {
        Rect { x: 0, y: 0, width: 0, height: 0 }
    }
}

/// The coordinate of `r`'s near edge along the split axis: its top row when
/// `vertical`, its left column otherwise.
pub open spec fn origin_of(r: Rect, vertical: bool) -> u16 {
    if vertical {
        r.y
    } else {
        r.x
    }
}

/// The extent of `r` along the split axis: its height when `vertical`, its
/// width otherwise.
pub open spec fn extent_of(r: Rect, vertical: bool) -> u16 {
    if vertical {
        r.height
    } else {
        r.width
    }
}

/// `r` with its near edge and extent along the split axis replaced, and the
/// cross axis left as it is.
pub open spec fn with_span(r: Rect, vertical: bool, origin: u16, extent: u16) -> Rect {
    if vertical {
        Rect { x: r.x, y: origin, width: r.width, height: extent }
    } else {
        Rect { x: origin, y: r.y, width: extent, height: r.height }
    }
}

impl Rect {
    /// The coordinate of the near edge along the split axis.
    pub fn origin_along(&self, vertical: bool) -> (r: u16)
        ensures
            r == origin_of(*self, vertical),
    {
        if vertical {
            self.y
        } else {
            self.x
        }
    }

    /// The extent along the split axis.
    pub fn extent_along(&self, vertical: bool) -> (r: u16)
        ensures
            r == extent_of(*self, vertical),
    {
        if vertical {
            self.height
        } else {
            self.width
        }
    }

    /// This rectangle with the given near edge and extent along the split axis.
    pub fn with_span_along(&self, vertical: bool, origin: u16, extent: u16) -> (r: Rect)
        ensures
            r == with_span(*self, vertical, origin, extent),
    {
        if vertical {
            Rect { x: self.x, y: origin, width: self.width, height: extent }
        } else {
            Rect { x: origin, y: self.y, width: extent, height: self.height }
        }
    }
}

} // verus!
