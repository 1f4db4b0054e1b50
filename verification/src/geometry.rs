//! Points and rectangles in pixels.
//!
//! Coordinates are kept inside half of the `i32` range and sizes between one
//! and the largest coordinate, so that a position plus a size never leaves
//! `i32`. Every constructor clamps into that range.

use vstd::prelude::*;

verus! {

/// The largest coordinate, and the largest width or height.
pub const MAX_COORD: i32 = 1073741823;

/// The smallest coordinate.
pub const MIN_COORD: i32 = -1073741824;

/// The coordinate nearest to `v`.
pub open spec fn clamp_position(v: int) -> int {
    if v > MAX_COORD {
        MAX_COORD as int
    } else if v < MIN_COORD {
        MIN_COORD as int
    } else {
        v
    }
}

/// The width or height nearest to `v`: never zero, never above `MAX_COORD`.
pub open spec fn clamp_size(v: int) -> int {
    if v <= 0 {
        1
    } else if v > MAX_COORD {
        MAX_COORD as int
    } else {
        v
    }
}

/// Whether `v` is a coordinate that a point can hold.
pub open spec fn is_position(v: int) -> bool {
    MIN_COORD <= v <= MAX_COORD
}

/// Whether `v` is a width or height that a rectangle can hold.
pub open spec fn is_size(v: int) -> bool {
    1 <= v <= MAX_COORD
}

/// The bounds are half of the `i32` range, so the sum of two coordinates, and
/// of a coordinate and a size, stays in `i32`.
pub proof fn lemma_coordinates_fit(a: int, b: int, size: int)
    requires
        is_position(a),
        is_position(b),
        is_size(size),
    ensures
        MAX_COORD == i32::MAX / 2,
        MIN_COORD == i32::MIN / 2,
        i32::MIN <= a + b <= i32::MAX,
        i32::MIN <= a + size <= i32::MAX,
{
}

/// Brings any 64-bit value to the nearest coordinate.
pub fn clamp_to_position(v: i64) -> (r: i32)
    ensures
        r == clamp_position(v as int),
        is_position(r as int),
{
    if v > MAX_COORD as i64 {
        MAX_COORD
    } else if v < MIN_COORD as i64 {
        MIN_COORD
    } else {
        v as i32
    }
}

/// Brings any width or height to the nearest one that a rectangle can hold.
pub fn clamp_to_size(v: u32) -> (r: u32)
    ensures
        r == clamp_size(v as int),
        is_size(r as int),
{
    if v == 0 {
        1
    } else if v > MAX_COORD as u32 {
        MAX_COORD as u32
    } else {
        v
    }
}

/// A point of the plane, seen in contracts as the pair of its coordinates.
#[derive(Debug, PartialEq, Eq, Clone, Copy, Structural)]
pub struct Point {
    x: i32,
    y: i32,
}

impl View for Point {
    type V = (int, int);

    closed spec fn view(&self) -> (int, int) {
        (self.x as int, self.y as int)
    }
}

impl Point {
    #[verifier::type_invariant]
    spec fn in_range(self) -> bool {
        self.well_formed()
    }

    /// Both coordinates lie in the coordinate range. This holds of every
    /// point that executable code can hold.
    pub open spec fn well_formed(&self) -> bool {
        is_position(self@.0) && is_position(self@.1)
    }

    /// The point nearest to `(x, y)` in the coordinate range.
    pub fn new(x: i32, y: i32) -> (p: Point)
        ensures
            p@ == (clamp_position(x as int), clamp_position(y as int)),
            p.well_formed(),
    {
        Point { x: clamp_to_position(x as i64), y: clamp_to_position(y as i64) }
    }

    /// The horizontal coordinate.
    pub fn x(&self) -> (r: i32)
        ensures
            r == self@.0,
            is_position(r as int),
    {
        proof {
            use_type_invariant(self);
        }
        self.x
    }

    /// The vertical coordinate.
    pub fn y(&self) -> (r: i32)
        ensures
            r == self@.1,
            is_position(r as int),
    {
        proof {
            use_type_invariant(self);
        }
        self.y
    }
}

/// A point is no more than its coordinates: two points with the same
/// coordinates are the same point.
pub proof fn lemma_point_determined(a: Point, b: Point)
    requires
        a@ == b@,
    ensures
        a == b,
{
}

/// What a rectangle is in contracts: the top-left corner and the size.
pub struct RectView {
    pub x: int,
    pub y: int,
    pub width: int,
    pub height: int,
}

/// A non-empty rectangle, given by its top-left corner and its size.
#[derive(Debug, PartialEq, Eq, Clone, Copy, Structural)]
pub struct Rect {
    x: i32,
    y: i32,
    width: u32,
    height: u32,
}

impl View for Rect {
    type V = RectView;

    closed spec fn view(&self) -> RectView {
        RectView {
            x: self.x as int,
            y: self.y as int,
            width: self.width as int,
            height: self.height as int,
        }
    }
}

impl Rect {
    #[verifier::type_invariant]
    spec fn in_range(self) -> bool {
        self.well_formed()
    }

    /// The corner lies in the coordinate range, and neither side is zero or
    /// longer than `MAX_COORD`. This holds of every rectangle that executable
    /// code can hold.
    pub open spec fn well_formed(&self) -> bool {
        &&& is_position(self@.x)
        &&& is_position(self@.y)
        &&& is_size(self@.width)
        &&& is_size(self@.height)
    }

    /// The rectangle with its top-left corner nearest to `(x, y)`. A width or
    /// height of zero becomes one, and one above `MAX_COORD` becomes
    /// `MAX_COORD`.
    pub fn new(x: i32, y: i32, width: u32, height: u32) -> (r: Rect)
        ensures
            r@ == (RectView {
                x: clamp_position(x as int),
                y: clamp_position(y as int),
                width: clamp_size(width as int),
                height: clamp_size(height as int),
            }),
            r.well_formed(),
    {
        Rect {
            x: clamp_to_position(x as i64),
            y: clamp_to_position(y as i64),
            width: clamp_to_size(width),
            height: clamp_to_size(height),
        }
    }

    /// The rectangle of the given size whose centre is `center`, the centre
    /// rounded towards the top-left corner where a side is odd.
    pub fn from_center(center: Point, width: u32, height: u32) -> (r: Rect)
        ensures
            r@ == (RectView {
                x: clamp_position(center@.0 - clamp_size(width as int) / 2),
                y: clamp_position(center@.1 - clamp_size(height as int) / 2),
                width: clamp_size(width as int),
                height: clamp_size(height as int),
            }),
            r.well_formed(),
    {
        let w: u32 = clamp_to_size(width);
        let h: u32 = clamp_to_size(height);
        Rect {
            x: clamp_to_position(center.x() as i64 - (w / 2) as i64),
            y: clamp_to_position(center.y() as i64 - (h / 2) as i64),
            width: w,
            height: h,
        }
    }

    /// The horizontal coordinate of the top-left corner.
    pub fn x(&self) -> (r: i32)
        ensures
            r == self@.x,
            is_position(r as int),
    {
        proof {
            use_type_invariant(self);
        }
        self.x
    }

    /// The vertical coordinate of the top-left corner.
    pub fn y(&self) -> (r: i32)
        ensures
            r == self@.y,
            is_position(r as int),
    {
        proof {
            use_type_invariant(self);
        }
        self.y
    }

    /// The width, at least one.
    pub fn width(&self) -> (r: u32)
        ensures
            r == self@.width,
            is_size(r as int),
    {
        proof {
            use_type_invariant(self);
        }
        self.width
    }

    /// The height, at least one.
    pub fn height(&self) -> (r: u32)
        ensures
            r == self@.height,
            is_size(r as int),
    {
        proof {
            use_type_invariant(self);
        }
        self.height
    }

    /// The width and the height.
    pub fn size(&self) -> (r: (u32, u32))
        ensures
            r.0 == self@.width,
            r.1 == self@.height,
            is_size(r.0 as int),
            is_size(r.1 as int),
    {
        (self.width(), self.height())
    }
}

/// A rectangle is no more than its corner and its size.
pub proof fn lemma_rect_determined(a: Rect, b: Rect)
    requires
        a@ == b@,
    ensures
        a == b,
{
}

} // verus!
