//! Pixel rectangles and the padding insets that derive a capture area.

use vstd::prelude::*;

verus! {

/// An axis-aligned rectangle in display pixel coordinates.
///
/// A geometry used to capture pixels must have a positive width and height;
/// `is_valid` states that requirement.
#[derive(Clone, Copy, Debug, PartialEq, Eq, Structural)]
pub struct Geometry {
    pub x: i32,
    pub y: i32,
    pub width: u32,
    pub height: u32,
}

/// Insets applied to a window's geometry to derive the active capture
/// rectangle. Adjustments saturate and never wrap.
#[derive(Clone, Copy, Debug, PartialEq, Eq, Structural)]
pub struct Padding {
    pub top: u32,
    pub right: u32,
    pub bottom: u32,
    pub left: u32,
}

impl Geometry {
    /// True of any geometry that may be used to capture pixels.
    pub open spec fn is_valid(self) -> bool {
        self.width > 0 && self.height > 0
    }

    pub fn new(x: i32, y: i32, width: u32, height: u32) -> (r: Self)
        ensures
            r == (Geometry { x, y, width, height }),
    {
        Self { x, y, width, height }
    }

    /// A geometry with every field zero; the placeholder before a window's
    /// real geometry has been fetched.
    pub fn default() -> (r: Self)
        ensures
            r == (Geometry { x: 0i32, y: 0i32, width: 0u32, height: 0u32 }),
    {
        Self { x: 0, y: 0, width: 0, height: 0 }
    }

    pub fn is_zero(&self) -> (r: bool)
        ensures
            r == (self.x == 0 && self.y == 0 && self.width == 0 && self.height == 0),
    {
        self.x == 0 && self.y == 0 && self.width == 0 && self.height == 0
    }

    /// The capture rectangle that `p` carves out of `self`: the origin moves
    /// in by the left and top insets, the dimensions shrink by the insets on
    /// both axes. All arithmetic saturates, so the result never has negative
    /// dimensions and the origin never wraps.
    pub open spec fn spec_padded(self, p: Padding) -> Geometry {
        Geometry {
            x: sat_add_i32(self.x as int, p.left as int),
            y: sat_add_i32(self.y as int, p.top as int),
            width: sat_sub_u32(self.width as int, p.left + p.right),
            height: sat_sub_u32(self.height as int, p.top + p.bottom),
        }
    }

    /// Apply padding insets, saturating.
    pub fn padded(&self, p: Padding) -> (r: Geometry)
        ensures
            r == self.spec_padded(p),
    {
        let width = self.width.saturating_sub(p.left.saturating_add(p.right));
        let height = self.height.saturating_sub(p.top.saturating_add(p.bottom));
        let x = match self.x.checked_add_unsigned(p.left) {
            Some(v) => v,
            None => i32::MAX,
        };
        let y = match self.y.checked_add_unsigned(p.top) {
            Some(v) => v,
            None => i32::MAX,
        };
        Geometry { x, y, width, height }
    }
}

/// `v + d` clamped to the range of `i32`.
pub open spec fn sat_add_i32(v: int, d: int) -> i32 {
    if v + d > i32::MAX {
        i32::MAX
    } else if v + d < i32::MIN {
        i32::MIN
    } else {
        (v + d) as i32
    }
}

/// `v + d` clamped to the range of `u32`.
pub open spec fn sat_add_u32(v: int, d: int) -> u32 {
    if v + d > u32::MAX {
        u32::MAX
    } else if v + d < 0 {
        0u32
    } else {
        (v + d) as u32
    }
}

/// `v - d` clamped below at zero and above at `u32::MAX`.
pub open spec fn sat_sub_u32(v: int, d: int) -> u32 {
    if v - d < 0 {
        0u32
    } else if v - d > u32::MAX {
        u32::MAX
    } else {
        (v - d) as u32
    }
}

impl Padding {
    pub fn new(top: u32, right: u32, bottom: u32, left: u32) -> (r: Self)
        ensures
            r == (Padding { top, right, bottom, left }),
    {
        Self { top, right, bottom, left }
    }

    /// A uniform inset on all four sides.
    pub fn uniform(v: u32) -> (r: Self)
        ensures
            r == (Padding { top: v, right: v, bottom: v, left: v }),
    {
        Self { top: v, right: v, bottom: v, left: v }
    }

    pub fn is_zero(&self) -> (r: bool)
        ensures
            r == (self.top == 0 && self.right == 0 && self.bottom == 0 && self.left == 0),
    {
        self.top == 0 && self.right == 0 && self.bottom == 0 && self.left == 0
    }
}

} // verus!
