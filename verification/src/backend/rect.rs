//! Areas of a rectangle that lie on one side of another area, used to clear what a glyph image or
//! a cursor does not cover.

use vstd::prelude::*;

use crate::geometry::{
    clamp_i32, max_i32, max_int, min_int, sat_add_unsigned_i32, Point, Rectangle, Size,
};

verus! {

/// The length of the run of `len` cells from `start` that comes before cell `end`.
pub open spec fn run_before(start: int, len: int, end: int) -> int {
    min_int(len, max_int(end - start, 0))
}

/// The first cell of the run of `len` cells from `start` that is at or after cell `from`.
pub open spec fn run_start_from(start: int, from: int) -> int {
    max_int(start, from)
}

/// The length of the run of `len` cells from `start` that is at or after cell `from`.
pub open spec fn run_len_from(start: int, len: int, from: int) -> int {
    max_int(start + len - max_int(start, from), 0)
}

/// The part of `s` to the left of column `o.top_left.x`.
pub open spec fn left_of_area(s: Rectangle, o: Rectangle) -> Rectangle {
    Rectangle {
        top_left: s.top_left,
        size: Size {
            width: run_before(s.top_left.x as int, s.size.width as int, o.top_left.x as int) as u32,
            height: s.size.height,
        },
    }
}

/// The part of `s` to the right of the right edge of `o`; empty when that edge lies past the last
/// column of `i32`.
pub open spec fn right_of_area(s: Rectangle, o: Rectangle) -> Rectangle {
    let edge = o.top_left.x + o.size.width;
    let right = clamp_i32(edge);
    Rectangle {
        top_left: Point { x: run_start_from(s.top_left.x as int, right) as i32, y: s.top_left.y },
        size: Size {
            width: if edge > i32::MAX {
                0
            } else {
                run_len_from(s.top_left.x as int, s.size.width as int, right) as u32
            },
            height: s.size.height,
        },
    }
}

/// The part of `s` above row `o.top_left.y`.
pub open spec fn above_area(s: Rectangle, o: Rectangle) -> Rectangle {
    Rectangle {
        top_left: s.top_left,
        size: Size {
            width: s.size.width,
            height: run_before(s.top_left.y as int, s.size.height as int, o.top_left.y as int)
                as u32,
        },
    }
}

/// The part of `s` below the bottom edge of `o`; empty when that edge lies past the last row of
/// `i32`.
pub open spec fn below_area(s: Rectangle, o: Rectangle) -> Rectangle {
    let edge = o.top_left.y + o.size.height;
    let bottom = clamp_i32(edge);
    Rectangle {
        top_left: Point { x: s.top_left.x, y: run_start_from(s.top_left.y as int, bottom) as i32 },
        size: Size {
            width: s.size.width,
            height: if edge > i32::MAX {
                0
            } else {
                run_len_from(s.top_left.y as int, s.size.height as int, bottom) as u32
            },
        },
    }
}

/// The part of `s` between rows `top` (inclusive) and `bottom` (exclusive).
pub open spec fn y_reduced_area(s: Rectangle, top: i32, bottom: i32) -> Rectangle {
    let new_top = run_start_from(s.top_left.y as int, top as int);
    let rest = run_len_from(s.top_left.y as int, s.size.height as int, top as int);
    Rectangle {
        top_left: Point { x: s.top_left.x, y: new_top as i32 },
        size: Size { width: s.size.width, height: run_before(new_top, rest, bottom as int) as u32 },
    }
}

/// The part of `s` from column `right` onwards.
pub open spec fn indented_area(s: Rectangle, right: i32) -> Rectangle {
    Rectangle {
        top_left: Point { x: run_start_from(s.top_left.x as int, right as int) as i32, y: s.top_left.y },
        size: Size {
            width: run_len_from(s.top_left.x as int, s.size.width as int, right as int) as u32,
            height: s.size.height,
        },
    }
}

/// The length of the run of `len` cells from `start` that comes before cell `end`.
fn exec_run_before(start: i32, len: u32, end: i32) -> (r: u32)
    ensures
        r == run_before(start as int, len as int, end as int),
{
    let d: i64 = end as i64 - start as i64;
    if d <= 0 {
        0
    } else if d >= len as i64 {
        len
    } else {
        d as u32
    }
}

/// The first cell and the length of the run of `len` cells from `start` that is at or after
/// cell `from`.
fn exec_run_from(start: i32, len: u32, from: i32) -> (r: (i32, u32))
    ensures
        r.0 == run_start_from(start as int, from as int),
        r.1 == run_len_from(start as int, len as int, from as int),
{
    let first = max_i32(start, from);
    let rest: i64 = start as i64 + len as i64 - first as i64;
    if rest <= 0 {
        (first, 0)
    } else {
        (first, rest as u32)
    }
}

/// Extension trait for rectangles.
pub trait RectangleExt: Sized {
    /// Returns the rectangle's area that only has pixels to the left of the specified area.
    fn left_of(&self, other: &Self) -> Self;

    /// Returns the rectangle's area that only has pixels to the right of the specified area.
    fn right_of(&self, other: &Self) -> Self;

    /// Returns the rectangle's area that only has pixels above the specified area.
    fn above(&self, other: &Self) -> Self;

    /// Returns the rectangle's area that only has pixels below the specified area.
    fn below(&self, other: &Self) -> Self;

    /// Returns the rectangle with its area reduced along the _y_-axis to the specified top and
    /// bottom rows, excluding the bottom row itself.
    fn y_reduce(&self, top: i32, bottom: i32) -> Self;

    /// Returns the rectangle with its left side indented to the right, making the specified column
    /// its new left side.
    fn indent_to(&self, right: i32) -> Self;
}

impl RectangleExt for Rectangle {
    fn left_of(&self, other: &Self) -> (r: Self)
        ensures
            r == left_of_area(*self, *other),
    {
        let width = exec_run_before(self.top_left.x, self.size.width, other.top_left.x);
        Rectangle { top_left: self.top_left, size: Size::new(width, self.size.height) }
    }

    fn right_of(&self, other: &Self) -> (r: Self)
        ensures
            r == right_of_area(*self, *other),
    {
        let edge: i64 = other.top_left.x as i64 + other.size.width as i64;
        let right = sat_add_unsigned_i32(other.top_left.x, other.size.width);
        let (x, width) = exec_run_from(self.top_left.x, self.size.width, right);
        let width = if edge > i32::MAX as i64 {
            0
        } else {
            width
        };
        Rectangle {
            top_left: Point::new(x, self.top_left.y),
            size: Size::new(width, self.size.height),
        }
    }

    fn above(&self, other: &Self) -> (r: Self)
        ensures
            r == above_area(*self, *other),
    {
        let height = exec_run_before(self.top_left.y, self.size.height, other.top_left.y);
        Rectangle { top_left: self.top_left, size: Size::new(self.size.width, height) }
    }

    fn below(&self, other: &Self) -> (r: Self)
        ensures
            r == below_area(*self, *other),
    {
        let edge: i64 = other.top_left.y as i64 + other.size.height as i64;
        let bottom = sat_add_unsigned_i32(other.top_left.y, other.size.height);
        let (y, height) = exec_run_from(self.top_left.y, self.size.height, bottom);
        let height = if edge > i32::MAX as i64 {
            0
        } else {
            height
        };
        Rectangle {
            top_left: Point::new(self.top_left.x, y),
            size: Size::new(self.size.width, height),
        }
    }

    fn y_reduce(&self, top: i32, bottom: i32) -> (r: Self)
        ensures
            r == y_reduced_area(*self, top, bottom),
    {
        let (y, rest) = exec_run_from(self.top_left.y, self.size.height, top);
        let height = exec_run_before(y, rest, bottom);
        Rectangle {
            top_left: Point::new(self.top_left.x, y),
            size: Size::new(self.size.width, height),
        }
    }

    fn indent_to(&self, right: i32) -> (r: Self)
        ensures
            r == indented_area(*self, right),
    {
        let (x, width) = exec_run_from(self.top_left.x, self.size.width, right);
        Rectangle {
            top_left: Point::new(x, self.top_left.y),
            size: Size::new(width, self.size.height),
        }
    }
}

/// The area left of `other` holds exactly the pixels of `area` that lie left of the left side of
/// `other`.
pub proof fn left_of_is_left_part(area: Rectangle, other: Rectangle, px: int, py: int)
    ensures
        left_of_area(area, other).contains(px, py) <==> area.contains(px, py) && px
            < other.top_left.x,
{
}

/// The area right of `other` holds exactly the pixels of `area` that lie right of the right edge
/// of `other`, and none when that edge lies past the last column of `i32`.
pub proof fn right_of_is_right_part(area: Rectangle, other: Rectangle, px: int, py: int)
    ensures
        right_of_area(area, other).contains(px, py) <==> area.contains(px, py) && px
            >= other.top_left.x + other.size.width && other.top_left.x + other.size.width
            <= i32::MAX,
{
}

/// The area above `other` holds exactly the pixels of `area` that lie above the top side of
/// `other`.
pub proof fn above_is_upper_part(area: Rectangle, other: Rectangle, px: int, py: int)
    ensures
        above_area(area, other).contains(px, py) <==> area.contains(px, py) && py
            < other.top_left.y,
{
}

/// The area below `other` holds exactly the pixels of `area` that lie below the bottom edge of
/// `other`, and none when that edge lies past the last row of `i32`.
pub proof fn below_is_lower_part(area: Rectangle, other: Rectangle, px: int, py: int)
    ensures
        below_area(area, other).contains(px, py) <==> area.contains(px, py) && py
            >= other.top_left.y + other.size.height && other.top_left.y + other.size.height
            <= i32::MAX,
{
}

/// Reducing an area to the rows from `top` up to `bottom` keeps exactly its pixels in those rows.
pub proof fn y_reduce_keeps_rows(area: Rectangle, top: i32, bottom: i32, px: int, py: int)
    ensures
        y_reduced_area(area, top, bottom).contains(px, py) <==> area.contains(px, py) && top
            <= py < bottom,
{
}

/// Indenting an area to column `right` keeps exactly its pixels from that column onwards.
pub proof fn indent_keeps_columns(area: Rectangle, right: i32, px: int, py: int)
    ensures
        indented_area(area, right).contains(px, py) <==> area.contains(px, py) && px >= right,
{
}

} // verus!
