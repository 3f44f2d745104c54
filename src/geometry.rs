//! Rectangles in capture-pixel space and the map from capture pixels to
//! input-injection points.

use vstd::prelude::*;

verus! {

/// A rectangle zone of a window, in capture-pixel space.
#[derive(Clone, Copy, Debug, PartialEq, Eq, Structural)]
pub struct Rect {
    /// Left coordinate of the rectangle, relative to the window.
    pub x: u32,
    /// Top coordinate of the rectangle, relative to the window.
    pub y: u32,
    /// Width of the rectangle.
    pub width: u32,
    /// Height of the rectangle.
    pub height: u32,
}

/// The midpoint of a rectangle, with floor division of its sides.
pub open spec fn center_of(r: Rect) -> (int, int) {
    (r.x + r.width / 2, r.y + r.height / 2)
}

/// Whether the midpoint of `r` is representable in `u32`.
pub open spec fn center_fits(r: Rect) -> bool {
    center_of(r).0 <= u32::MAX && center_of(r).1 <= u32::MAX
}

impl Rect {
    /// Creates a new `Rect`.
    pub fn new(x: u32, y: u32, width: u32, height: u32) -> (r: Rect)
        ensures
            r == (Rect { x, y, width, height }),
    {
        Rect { x, y, width, height }
    }

    /// Returns the coordinates of the center of the rectangle.
    pub fn center(&self) -> (c: (u32, u32))
        requires
            center_fits(*self),
        ensures
            c.0 == center_of(*self).0,
            c.1 == center_of(*self).1,
    {
        (self.x + self.width / 2, self.y + self.height / 2)
    }
}

/// The screen bounds of a window, in input-injection points.
#[derive(Clone, Copy, Debug, PartialEq, Eq, Structural)]
pub struct Bounds {
    /// Left edge of the window on the screen.
    pub x: u32,
    /// Top edge of the window on the screen.
    pub y: u32,
    /// Width of the window.
    pub width: u32,
    /// Height of the window.
    pub height: u32,
}

/// One coordinate of a capture pixel mapped to the screen: divided down by the
/// display's density ratio, then offset by the window's origin.
pub open spec fn screen_coord(origin: int, dpi_ratio: int, relative: int) -> int {
    relative / dpi_ratio + origin
}

/// Whether an integer is a valid input-injection coordinate.
pub open spec fn fits_i32(v: int) -> bool {
    i32::MIN <= v <= i32::MAX
}

/// Maps a point of capture-pixel space to input-injection space.
///
/// Returns `None` when a mapped coordinate does not fit the injection
/// coordinate type.
pub fn to_screen(origin: (u32, u32), dpi_ratio: u32, relative: (u32, u32)) -> (r: Option<(i32, i32)>)
    requires
        dpi_ratio >= 1,
    ensures
        r is Some <==> fits_i32(screen_coord(origin.0 as int, dpi_ratio as int, relative.0 as int))
            && fits_i32(screen_coord(origin.1 as int, dpi_ratio as int, relative.1 as int)),
        r matches Some(p) ==> p.0 == screen_coord(origin.0 as int, dpi_ratio as int, relative.0 as int)
            && p.1 == screen_coord(origin.1 as int, dpi_ratio as int, relative.1 as int),
{
    let sx: u64 = (relative.0 / dpi_ratio) as u64 + origin.0 as u64;
    let sy: u64 = (relative.1 / dpi_ratio) as u64 + origin.1 as u64;
    if sx <= i32::MAX as u64 && sy <= i32::MAX as u64 {
        Some((sx as i32, sy as i32))
    } else {
        None
    }
}

} // verus!
