//! Points and rectangles on the screen, in whole pixels, with the bounds
//! that the drawing surface puts on positions and sizes.

use vstd::prelude::*;

verus! {

/// Largest position of a point or of a rectangle's corner, and largest
/// width or height of a rectangle.
pub const MAX_COORDINATE: i32 = 1073741823;

/// Smallest position of a point or of a rectangle's corner.
pub const MIN_COORDINATE: i32 = -1073741824;

/// The position nearest to `v` that a point may have.
pub open spec fn clamped_position(v: int) -> int {
    if v > MAX_COORDINATE {
        MAX_COORDINATE as int
    } else if v < MIN_COORDINATE {
        MIN_COORDINATE as int
    } else {
        v
    }
}

/// The width or height nearest to `v` that a rectangle may have: at least
/// one pixel.
pub open spec fn clamped_size(v: int) -> int {
    if v <= 0 {
        1
    } else if v > MAX_COORDINATE {
        MAX_COORDINATE as int
    } else {
        v
    }
}

/// The position nearest to `val` that a point may have.
pub fn clamp_position(val: i32) -> (r: i32)
    ensures
        r == clamped_position(val as int),
{
    if val > MAX_COORDINATE {
        MAX_COORDINATE
    } else if val < MIN_COORDINATE {
        MIN_COORDINATE
    } else {
        val
    }
}

/// The width or height nearest to `val` that a rectangle may have.
pub fn clamp_size(val: u32) -> (r: u32)
    ensures
        r == clamped_size(val as int),
{
    if val == 0 {
        1
    } else if val > 1073741823u32 {
        1073741823u32
    } else {
        val
    }
}

/// A pixel position.
#[derive(Clone, Copy, PartialEq, Eq, Debug, Structural)]
pub struct Point {
    pub x: i32,
    pub y: i32,
}

impl Point {
    /// The point nearest to `(x, y)` within the bounds on positions.
    pub fn new(x: i32, y: i32) -> (p: Point)
        ensures
            p.x == clamped_position(x as int),
            p.y == clamped_position(y as int),
    {
        Point { x: clamp_position(x), y: clamp_position(y) }
    }
}

/// A rectangle of pixels: its top left corner, its width and its height.
/// It covers the columns from `x` up to, not including, `x + width`, and the
/// rows from `y` up to, not including, `y + height`.
#[derive(Clone, Copy, PartialEq, Eq, Debug, Structural)]
pub struct Rect {
    pub x: i32,
    pub y: i32,
    pub width: u32,
    pub height: u32,
}

impl Rect {
    /// The rectangle that `new` makes of the four numbers.
    pub open spec fn clamped(x: int, y: int, width: int, height: int) -> Rect {
        Rect {
            x: clamped_position(x) as i32,
            y: clamped_position(y) as i32,
            width: clamped_size(width) as u32,
            height: clamped_size(height) as u32,
        }
    }

    /// The pixel at `point` lies inside the rectangle.
    pub open spec fn contains(self, point: Point) -> bool {
        &&& self.x <= point.x < self.x + self.width
        &&& self.y <= point.y < self.y + self.height
    }

    /// A rectangle with its corner clamped to the bounds on positions and
    /// its width and height clamped to at least 1 and at most
    /// `MAX_COORDINATE`.
    pub fn new(x: i32, y: i32, width: u32, height: u32) -> (r: Rect)
        ensures
            r == Rect::clamped(x as int, y as int, width as int, height as int),
    {
        Rect {
            x: clamp_position(x),
            y: clamp_position(y),
            width: clamp_size(width),
            height: clamp_size(height),
        }
    }

    /// Whether the pixel at `point` lies inside the rectangle.
    pub fn contains_point(&self, point: Point) -> (inside: bool)
        ensures
            inside == self.contains(point),
    {
        let px: i64 = point.x as i64;
        let py: i64 = point.y as i64;
        let left: i64 = self.x as i64;
        let top: i64 = self.y as i64;
        let inside_x = px >= left && px < left + self.width as i64;
        inside_x && (py >= top && py < top + self.height as i64)
    }
}

} // verus!
