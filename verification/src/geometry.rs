//! Pixel geometry: points, sizes, and rectangles on the draw target, with the arithmetic that
//! saturates at the bounds of their integer components.

use embedded_graphics::geometry::AnchorX as GraphicsAnchorX;
use embedded_graphics::geometry::{Point as GraphicsPoint, Size as GraphicsSize};
use embedded_graphics::primitives::Rectangle as GraphicsRectangle;
use embedded_graphics::transform::Transform;
use vstd::prelude::*;

verus! {

/// A point on the draw target, in pixels.
#[derive(Debug, Clone, Copy, PartialEq, Eq, Structural, Hash)]
pub struct Point {
    /// The _x_ coordinate.
    pub x: i32,
    /// The _y_ coordinate.
    pub y: i32,
}

/// A size in pixels.
#[derive(Debug, Clone, Copy, PartialEq, Eq, Structural, Hash)]
pub struct Size {
    /// The width.
    pub width: u32,
    /// The height.
    pub height: u32,
}

/// A rectangle given by its top-left corner and its size; the bottom and right edges are exclusive.
#[derive(Debug, Clone, Copy, PartialEq, Eq, Structural, Hash)]
pub struct Rectangle {
    /// The top-left corner.
    pub top_left: Point,
    /// The size.
    pub size: Size,
}

/// Horizontal anchor point for resizing a rectangle along the _x_-axis.
#[derive(Debug, Clone, Copy, PartialEq, Eq, Structural, Hash)]
pub enum AnchorX {
    /// The left side stays in place.
    Left,
    /// The center stays in place.
    Center,
    /// The right side stays in place.
    Right,
}

/// Clamps a mathematical integer to the range of `i32`.
pub open spec fn clamp_i32(v: int) -> int {
    if v < i32::MIN {
        i32::MIN as int
    } else if v > i32::MAX {
        i32::MAX as int
    } else {
        v
    }
}

/// Clamps a mathematical integer to the range of `u32`.
pub open spec fn clamp_u32(v: int) -> int {
    if v < 0 {
        0
    } else if v > u32::MAX {
        u32::MAX as int
    } else {
        v
    }
}

/// The smaller of two integers.
pub open spec fn min_int(a: int, b: int) -> int {
    if a <= b {
        a
    } else {
        b
    }
}

/// The larger of two integers.
pub open spec fn max_int(a: int, b: int) -> int {
    if a >= b {
        a
    } else {
        b
    }
}

/// `a.saturating_sub(b)` on `i32`.
pub fn sat_sub_i32(a: i32, b: i32) -> (r: i32)
    ensures
        r == clamp_i32(a - b),
{
    let v: i64 = a as i64 - b as i64;
    if v < i32::MIN as i64 {
        i32::MIN
    } else if v > i32::MAX as i64 {
        i32::MAX
    } else {
        v as i32
    }
}

/// `a.saturating_add(b)` on `i32`.
pub fn sat_add_i32(a: i32, b: i32) -> (r: i32)
    ensures
        r == clamp_i32(a + b),
{
    let v: i64 = a as i64 + b as i64;
    if v < i32::MIN as i64 {
        i32::MIN
    } else if v > i32::MAX as i64 {
        i32::MAX
    } else {
        v as i32
    }
}

/// `a.saturating_add_unsigned(b)` on `i32`.
pub fn sat_add_unsigned_i32(a: i32, b: u32) -> (r: i32)
    ensures
        r == clamp_i32(a + b),
{
    let v: i64 = a as i64 + b as i64;
    if v > i32::MAX as i64 {
        i32::MAX
    } else {
        v as i32
    }
}

/// `u32::try_from(v).unwrap_or_default()` on `i32`: negative values become zero.
pub fn nonneg_u32(v: i32) -> (r: u32)
    ensures
        r == max_int(v as int, 0),
{
    if v < 0 {
        0
    } else {
        v as u32
    }
}

/// `a.saturating_sub(b)` on `u32`.
pub fn sat_sub_u32(a: u32, b: u32) -> (r: u32)
    ensures
        r == clamp_u32(a - b),
{
    if a >= b {
        a - b
    } else {
        0
    }
}

/// `a.min(b)` on `u32`.
pub fn min_u32(a: u32, b: u32) -> (r: u32)
    ensures
        r == min_int(a as int, b as int),
{
    if a <= b {
        a
    } else {
        b
    }
}

/// `a.max(b)` on `i32`.
pub fn max_i32(a: i32, b: i32) -> (r: i32)
    ensures
        r == max_int(a as int, b as int),
{
    if a >= b {
        a
    } else {
        b
    }
}

impl Point {
    /// Creates a point.
    pub fn new(x: i32, y: i32) -> (r: Self)
        ensures
            r == (Point { x, y }),
    {
        Point { x, y }
    }

    /// The origin.
    pub fn zero() -> (r: Self)
        ensures
            r == (Point { x: 0, y: 0 }),
    {
        Point { x: 0, y: 0 }
    }
}

impl Size {
    /// Creates a size.
    pub fn new(width: u32, height: u32) -> (r: Self)
        ensures
            r == (Size { width, height }),
    {
        Size { width, height }
    }
}

impl Rectangle {
    /// Creates a rectangle.
    pub fn new(top_left: Point, size: Size) -> (r: Self)
        ensures
            r == (Rectangle { top_left, size }),
    {
        Rectangle { top_left, size }
    }

    /// Whether the pixel at `(px, py)` lies inside the rectangle.
    pub open spec fn contains(self, px: int, py: int) -> bool {
        &&& self.top_left.x <= px < self.top_left.x + self.size.width
        &&& self.top_left.y <= py < self.top_left.y + self.size.height
    }

    /// The rectangle lies within the coordinate range of `i32`, as does its far edge, and each of
    /// its sides fits in an `i32`.
    pub open spec fn fits(self) -> bool {
        &&& self.size.width <= i32::MAX
        &&& self.size.height <= i32::MAX
        &&& self.top_left.x + self.size.width <= i32::MAX
        &&& self.top_left.y + self.size.height <= i32::MAX
    }
}

/// A value of `u32` as converted to `i32` with saturation.
pub open spec fn saturating_i32(v: u32) -> int {
    if v > i32::MAX {
        i32::MAX as int
    } else {
        v as int
    }
}

/// Division by two that rounds toward zero, as on `i32`.
pub open spec fn half_toward_zero(v: int) -> int {
    if v >= 0 {
        v / 2
    } else {
        -((-v) / 2)
    }
}

/// How far the left side of a rectangle moves when its width changes from `from` to `to` about the
/// anchor point, where widths of zero count as one.
pub open spec fn anchor_shift(from: u32, to: u32, anchor_x: AnchorX) -> int {
    let delta = max_int(saturating_i32(from), 1) - max_int(saturating_i32(to), 1);
    match anchor_x {
        AnchorX::Left => 0,
        AnchorX::Center => half_toward_zero(delta),
        AnchorX::Right => delta,
    }
}

/// The rectangle at the origin with no pixels.
pub open spec fn zero_rectangle() -> Rectangle {
    Rectangle { top_left: Point { x: 0, y: 0 }, size: Size { width: 0, height: 0 } }
}

/// Whether a rectangle has no pixels.
pub open spec fn is_empty_rectangle(r: Rectangle) -> bool {
    r.size.width == 0 || r.size.height == 0
}

/// The intersection of two rectangles as computed by `embedded-graphics`: for two rectangles with
/// pixels, the rectangle between the larger of their top-left corners and the smaller of their
/// far edges when they overlap; a rectangle without pixels when its top-left corner lies in the
/// other rectangle; and otherwise the zero-sized rectangle at the origin.
pub open spec fn rectangle_intersection(a: Rectangle, b: Rectangle) -> Rectangle {
    if !is_empty_rectangle(a) && !is_empty_rectangle(b) {
        let left = max_int(a.top_left.x as int, b.top_left.x as int);
        let top = max_int(a.top_left.y as int, b.top_left.y as int);
        let right = min_int(a.top_left.x + a.size.width, b.top_left.x + b.size.width);
        let bottom = min_int(a.top_left.y + a.size.height, b.top_left.y + b.size.height);
        if left < right && top < bottom {
            Rectangle {
                top_left: Point { x: left as i32, y: top as i32 },
                size: Size { width: (right - left) as u32, height: (bottom - top) as u32 },
            }
        } else {
            zero_rectangle()
        }
    } else if !is_empty_rectangle(b) && b.contains(a.top_left.x as int, a.top_left.y as int) {
        a
    } else if !is_empty_rectangle(a) && a.contains(b.top_left.x as int, b.top_left.y as int) {
        b
    } else {
        zero_rectangle()
    }
}

/// The intersection of two rectangles holds exactly the pixels that both hold.
pub proof fn intersection_holds_common_pixels(a: Rectangle, b: Rectangle, px: int, py: int)
    ensures
        rectangle_intersection(a, b).contains(px, py) == (a.contains(px, py) && b.contains(
            px,
            py,
        )),
{
}

/// Calls `Rectangle::resized_width` of `embedded-graphics`, which sets the width and moves the left
/// side by [`anchor_shift`]; the move must stay within `i32`, or the addition would overflow.
#[verifier::external_body]
pub(crate) fn resized_width(r: Rectangle, width: u32, anchor_x: AnchorX) -> (s: Rectangle)
    requires
        i32::MIN <= r.top_left.x + anchor_shift(r.size.width, width, anchor_x) <= i32::MAX,
    ensures
        s.top_left.x == r.top_left.x + anchor_shift(r.size.width, width, anchor_x),
        s.top_left.y == r.top_left.y,
        s.size.width == width,
        s.size.height == r.size.height,
{
    let anchor = match anchor_x {
        AnchorX::Left => GraphicsAnchorX::Left,
        AnchorX::Center => GraphicsAnchorX::Center,
        AnchorX::Right => GraphicsAnchorX::Right,
    };
    let (p, z) = (GraphicsPoint::new(r.top_left.x, r.top_left.y), GraphicsSize::new(r.size.width, r.size.height));
    let t = GraphicsRectangle::new(p, z).resized_width(width, anchor);
    Rectangle::new(Point::new(t.top_left.x, t.top_left.y), Size::new(t.size.width, t.size.height))
}

/// Calls `Transform::translate` of `embedded-graphics` on a rectangle, which moves its top-left
/// corner by `by`; the new corner must stay within `i32`, or the addition would overflow.
#[verifier::external_body]
pub(crate) fn translate(r: Rectangle, by: Point) -> (s: Rectangle)
    requires
        i32::MIN <= r.top_left.x + by.x <= i32::MAX,
        i32::MIN <= r.top_left.y + by.y <= i32::MAX,
    ensures
        s.top_left.x == r.top_left.x + by.x,
        s.top_left.y == r.top_left.y + by.y,
        s.size == r.size,
{
    let (p, z) = (GraphicsPoint::new(r.top_left.x, r.top_left.y), GraphicsSize::new(r.size.width, r.size.height));
    let t = GraphicsRectangle::new(p, z).translate(GraphicsPoint::new(by.x, by.y));
    Rectangle::new(Point::new(t.top_left.x, t.top_left.y), Size::new(t.size.width, t.size.height))
}

/// Calls `Rectangle::intersection` of `embedded-graphics`, whose result is
/// [`rectangle_intersection`]. Both rectangles must lie within the coordinate range of `i32`, or
/// computing their corners would overflow.
#[verifier::external_body]
pub(crate) fn intersection(a: Rectangle, b: Rectangle) -> (s: Rectangle)
    requires
        a.fits(),
        b.fits(),
    ensures
        s == rectangle_intersection(a, b),
{
    let (p, z) = (GraphicsPoint::new(a.top_left.x, a.top_left.y), GraphicsSize::new(a.size.width, a.size.height));
    let (q, w) = (GraphicsPoint::new(b.top_left.x, b.top_left.y), GraphicsSize::new(b.size.width, b.size.height));
    let t = GraphicsRectangle::new(p, z).intersection(&GraphicsRectangle::new(q, w));
    Rectangle::new(Point::new(t.top_left.x, t.top_left.y), Size::new(t.size.width, t.size.height))
}

} // verus!
