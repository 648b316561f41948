//! Measurements and pixel areas that the backend computes while drawing cells, clearing regions,
//! and placing the cursor.

pub mod draw;
pub mod rect;
pub mod size;

use vstd::prelude::*;

use self::rect::{
    above_area, below_area, left_of_area, right_of_area, y_reduced_area, RectangleExt,
};
use self::size::{div_ceil, next_multiple_of, SizeExt};
use crate::error::{Error, MeasureError, SetCursorError};
use crate::geometry::{clamp_i32, sat_add_unsigned_i32, Point, Rectangle, Size};
use crate::layout::{self, ClearType, Position, WindowSize};

verus! {

/// The number of columns and rows of cells that cover a draw target, rounding up, if cells have a
/// positive size.
pub open spec fn columns_rows(target_size: Size, cell_size: Size) -> (int, int) {
    (
        div_ceil(target_size.width as int, cell_size.width as int),
        div_ceil(target_size.height as int, cell_size.height as int),
    )
}

/// Whether a position lies inside the text area of a draw target, whose columns and rows must fit
/// in `u16`.
pub open spec fn accepts_cursor_position(
    position: Position,
    target_size: Size,
    cell_size: Size,
) -> bool {
    let (columns, rows) = columns_rows(target_size, cell_size);
    &&& cell_size.width > 0
    &&& cell_size.height > 0
    &&& columns <= u16::MAX
    &&& rows <= u16::MAX
    &&& position.x < columns
    &&& position.y < rows
}

/// The top-left corner of the cell at column `x` and row `y`, if the offsets fit in `u32`.
pub open spec fn cell_origin(cell_size: Size, x: u16, y: u16) -> Option<Point> {
    let dx = cell_size.width * x;
    let dy = cell_size.height * y;
    if dx <= u32::MAX && dy <= u32::MAX {
        Some(Point { x: clamp_i32(dx) as i32, y: clamp_i32(dy) as i32 })
    } else {
        None
    }
}

/// The values to carry across calls to different methods for a given frame, and across frames.
#[derive(Debug, Clone, Copy, PartialEq, Eq, Structural)]
pub struct State {
    /// The position of the cursor.
    pub cursor_position: Position,
    /// The area of the draw target with the cursor drawn over it, if the cursor has been drawn
    /// since the last time the target was cleared.
    pub cursor_coverage: Option<Rectangle>,
}

/// Returns the number of columns and rows of cells that cover a draw target: the size of the
/// target divided by the size of a cell, rounding up.
pub fn text_area_size(target_size: Size, cell_size: Size) -> (r: Result<layout::Size, MeasureError>)
    ensures
        match r {
            Ok(s) => cell_size.width > 0 && cell_size.height > 0 && s.width == columns_rows(
                target_size,
                cell_size,
            ).0 && s.height == columns_rows(target_size, cell_size).1,
            Err(MeasureError::InvalidSize) => cell_size.width == 0 || cell_size.height == 0,
            Err(MeasureError::TryFromSize(_)) => cell_size.width > 0 && cell_size.height > 0 && (
            columns_rows(target_size, cell_size).0 > u16::MAX || columns_rows(
                target_size,
                cell_size,
            ).1 > u16::MAX),
        },
{
    let columns_rows = match target_size.checked_component_div_ceil(cell_size) {
        Some(size) => size,
        None => return Err(MeasureError::InvalidSize),
    };
    proof {
        size::div_ceil_at_most(target_size.width as int, cell_size.width as int);
        size::div_ceil_at_most(target_size.height as int, cell_size.height as int);
    }
    let columns = u16::try_from(columns_rows.width);
    let rows = u16::try_from(columns_rows.height);
    match (columns, rows) {
        (Ok(columns), Ok(rows)) => Ok(layout::Size::new(columns, rows)),
        (Err(e), _) => Err(MeasureError::TryFromSize(e)),
        (_, Err(e)) => Err(MeasureError::TryFromSize(e)),
    }
}

/// Returns the size of the text area in cells, as [`text_area_size`] computes it, and in pixels:
/// the size of the draw target rounded up to whole cells.
pub fn window_size(target_size: Size, cell_size: Size) -> (r: Result<WindowSize, MeasureError>)
    ensures
        ({
            let (columns, rows) = columns_rows(target_size, cell_size);
            let width = next_multiple_of(target_size.width as int, cell_size.width as int);
            let height = next_multiple_of(target_size.height as int, cell_size.height as int);
            match r {
                Ok(w) => cell_size.width > 0 && cell_size.height > 0 && w.columns_rows.width
                    == columns && w.columns_rows.height == rows && w.pixels.width == width
                    && w.pixels.height == height,
                Err(MeasureError::InvalidSize) => cell_size.width == 0 || cell_size.height == 0
                    || width > u32::MAX || height > u32::MAX,
                Err(MeasureError::TryFromSize(_)) => cell_size.width > 0 && cell_size.height > 0
                    && width <= u32::MAX && height <= u32::MAX && (columns > u16::MAX || rows
                    > u16::MAX || width > u16::MAX || height > u16::MAX),
            }
        }),
{
    let columns_rows = match target_size.checked_component_div_ceil(cell_size) {
        Some(size) => size,
        None => return Err(MeasureError::InvalidSize),
    };
    let columns = u16::try_from(columns_rows.width);
    let rows = u16::try_from(columns_rows.height);
    let width_height = match target_size.checked_component_next_multiple_of(cell_size) {
        Some(size) => size,
        None => return Err(MeasureError::InvalidSize),
    };
    let width = u16::try_from(width_height.width);
    let height = u16::try_from(width_height.height);
    match (columns, rows, width, height) {
        (Ok(columns), Ok(rows), Ok(width), Ok(height)) => Ok(
            WindowSize {
                columns_rows: layout::Size::new(columns, rows),
                pixels: layout::Size::new(width, height),
            },
        ),
        (Err(e), _, _, _) => Err(MeasureError::TryFromSize(e)),
        (_, Err(e), _, _) => Err(MeasureError::TryFromSize(e)),
        (_, _, Err(e), _) => Err(MeasureError::TryFromSize(e)),
        (_, _, _, Err(e)) => Err(MeasureError::TryFromSize(e)),
    }
}

/// Returns the top-left corner of the cell at column `x` and row `y`: the column and row times
/// the size of a cell, saturating at the bounds of `i32`.
pub fn cell_top_left(cell_size: Size, x: u16, y: u16) -> (r: Result<Point, MeasureError>)
    ensures
        match cell_origin(cell_size, x, y) {
            Some(p) => r matches Ok(q) && q == p,
            None => r matches Err(MeasureError::InvalidSize),
        },
{
    let pixels = match cell_size.checked_component_mul(Size::new(x as u32, y as u32)) {
        Some(size) => size,
        None => return Err(MeasureError::InvalidSize),
    };
    let origin = Point::zero();
    Ok(
        Point::new(
            sat_add_unsigned_i32(origin.x, pixels.width),
            sat_add_unsigned_i32(origin.y, pixels.height),
        ),
    )
}

/// Returns the area that a character or character cluster `columns` wide occupies at column `x`
/// and row `y`: the cell's top-left corner, `columns` cell widths across, and one line high.
pub fn text_area(cell_size: Size, x: u16, y: u16, columns: usize, line_height: u32) -> (r: Result<
    Rectangle,
    MeasureError,
>)
    ensures
        ({
            let columns = if columns <= u32::MAX {
                columns as int
            } else {
                u32::MAX as int
            };
            let width = cell_size.width * columns;
            match cell_origin(cell_size, x, y) {
                Some(p) => if width <= u32::MAX {
                    r matches Ok(a) && a == (Rectangle {
                        top_left: p,
                        size: Size { width: width as u32, height: line_height },
                    })
                } else {
                    r matches Err(MeasureError::InvalidSize)
                },
                None => r matches Err(MeasureError::InvalidSize),
            }
        }),
{
    let top_left = match cell_top_left(cell_size, x, y) {
        Ok(p) => p,
        Err(e) => return Err(e),
    };
    let columns: u32 = if columns <= u32::MAX as usize {
        columns as u32
    } else {
        u32::MAX
    };
    match cell_size.width.checked_mul(columns) {
        Some(width) => Ok(Rectangle::new(top_left, Size::new(width, line_height))),
        None => Err(MeasureError::InvalidSize),
    }
}

/// The areas that clearing a region fills: the whole target; the area with the cursor, the rest of
/// its line to the right and all lines below; the area with the cursor, the start of its line to
/// the left and all lines above; the line of the cursor; or the area with the cursor and the rest
/// of its line to the right. The line of the cursor spans the rows of the area with the cursor.
pub open spec fn clear_region_areas(
    all_pixels: Rectangle,
    coverage: Rectangle,
    clear_type: ClearType,
) -> Seq<Rectangle> {
    let top = coverage.top_left.y;
    let bottom = clamp_i32(top + coverage.size.height) as i32;
    let current_line = y_reduced_area(all_pixels, top, bottom);
    match clear_type {
        ClearType::All => seq![all_pixels],
        ClearType::AfterCursor => seq![
            coverage,
            right_of_area(current_line, coverage),
            below_area(all_pixels, current_line),
        ],
        ClearType::BeforeCursor => seq![
            coverage,
            left_of_area(current_line, coverage),
            above_area(all_pixels, current_line),
        ],
        ClearType::CurrentLine => seq![current_line],
        ClearType::UntilNewLine => seq![coverage, right_of_area(current_line, coverage)],
    }
}

/// Whether some area of a sequence holds the pixel at `(px, py)`.
pub open spec fn covered_by(areas: Seq<Rectangle>, px: int, py: int) -> bool {
    exists|i: int| 0 <= i < areas.len() && #[trigger] areas[i].contains(px, py)
}

/// Clearing a region fills exactly the pixels of that region: the area with the cursor together
/// with the pixels of the target that come after it in reading order (the rest of its rows to the
/// right, and the rows below), or before it (the start of its rows to the left, and the rows
/// above), or the pixels of the rows of the area with the cursor, or the area with the cursor and
/// the rest of its rows to the right, or the whole target.
pub proof fn cleared_pixels(
    all_pixels: Rectangle,
    coverage: Rectangle,
    clear_type: ClearType,
    px: int,
    py: int,
)
    requires
        all_pixels.size.width <= i32::MAX,
        all_pixels.size.height <= i32::MAX,
        coverage.fits(),
    ensures
        ({
            let top = coverage.top_left.y as int;
            let bottom = coverage.top_left.y + coverage.size.height;
            let left = coverage.top_left.x as int;
            let right = coverage.top_left.x + coverage.size.width;
            let on_line = all_pixels.contains(px, py) && top <= py < bottom;
            let region = match clear_type {
                ClearType::All => all_pixels.contains(px, py),
                ClearType::AfterCursor => coverage.contains(px, py) || (on_line && px >= right)
                    || (all_pixels.contains(px, py) && py >= bottom),
                ClearType::BeforeCursor => coverage.contains(px, py) || (on_line && px < left)
                    || (all_pixels.contains(px, py) && py < top),
                ClearType::CurrentLine => on_line,
                ClearType::UntilNewLine => coverage.contains(px, py) || (on_line && px >= right),
            };
            covered_by(clear_region_areas(all_pixels, coverage, clear_type), px, py) <==> region
        }),
{
    let top = coverage.top_left.y;
    let bottom = clamp_i32(top + coverage.size.height) as i32;
    let line = y_reduced_area(all_pixels, top, bottom);
    let areas = clear_region_areas(all_pixels, coverage, clear_type);
    rect::y_reduce_keeps_rows(all_pixels, top, bottom, px, py);
    rect::right_of_is_right_part(line, coverage, px, py);
    rect::left_of_is_left_part(line, coverage, px, py);
    rect::below_is_lower_part(all_pixels, line, px, py);
    rect::above_is_upper_part(all_pixels, line, px, py);
    let region = match clear_type {
        ClearType::All => all_pixels.contains(px, py),
        ClearType::AfterCursor => coverage.contains(px, py) || (all_pixels.contains(px, py) && top
            <= py < bottom && px >= coverage.top_left.x + coverage.size.width) || (
        all_pixels.contains(px, py) && py >= bottom),
        ClearType::BeforeCursor => coverage.contains(px, py) || (all_pixels.contains(px, py) && top
            <= py < bottom && px < coverage.top_left.x) || (all_pixels.contains(px, py) && py < top),
        ClearType::CurrentLine => all_pixels.contains(px, py) && top <= py < bottom,
        ClearType::UntilNewLine => coverage.contains(px, py) || (all_pixels.contains(px, py) && top
            <= py < bottom && px >= coverage.top_left.x + coverage.size.width),
    };
    if region {
        match clear_type {
            ClearType::All => {
                assert(areas[0].contains(px, py));
            },
            ClearType::CurrentLine => {
                assert(areas[0].contains(px, py));
            },
            _ => {
                if coverage.contains(px, py) {
                    assert(areas[0].contains(px, py));
                } else if all_pixels.contains(px, py) && top <= py < bottom {
                    assert(areas[1].contains(px, py));
                } else {
                    assert(areas[2].contains(px, py));
                }
            },
        }
    }
}

impl State {
    /// Creates the state of a backend that has drawn nothing: the cursor at the top-left position,
    /// not drawn.
    pub fn new() -> (r: Self)
        ensures
            r.cursor_position == (Position { x: 0, y: 0 }),
            r.cursor_coverage is None,
    {
        State { cursor_position: Position::origin(), cursor_coverage: None }
    }

    /// Returns the position of the cursor.
    pub fn get_cursor_position(&self) -> (r: Position)
        ensures
            r == self.cursor_position,
    {
        self.cursor_position
    }

    /// Moves the cursor to a position inside the text area of a draw target, failing when the text
    /// area cannot be measured or the position lies outside of it.
    pub fn set_cursor_position<T>(&mut self, position: Position, target_size: Size, cell_size: Size) -> (r:
        Result<(), Error<T>>)
        ensures
            r is Ok <==> accepts_cursor_position(position, target_size, cell_size),
            r is Ok ==> final(self).cursor_position == position,
            r is Err ==> final(self).cursor_position == old(self).cursor_position,
            match r {
                Err(Error::Measure(MeasureError::InvalidSize)) => cell_size.width == 0
                    || cell_size.height == 0,
                Err(Error::Measure(MeasureError::TryFromSize(_))) => cell_size.width > 0
                    && cell_size.height > 0 && (columns_rows(target_size, cell_size).0 > u16::MAX
                    || columns_rows(target_size, cell_size).1 > u16::MAX),
                Err(Error::SetCursor(SetCursorError::InvalidPosition)) => cell_size.width > 0
                    && cell_size.height > 0 && columns_rows(target_size, cell_size).0 <= u16::MAX
                    && columns_rows(target_size, cell_size).1 <= u16::MAX,
                Err(_) => false,
                Ok(_) => true,
            },
            final(self).cursor_coverage == old(self).cursor_coverage,
    {
        let columns_rows = match text_area_size(target_size, cell_size) {
            Ok(size) => size,
            Err(e) => return Err(Error::Measure(e)),
        };
        if position.x < columns_rows.width && position.y < columns_rows.height {
            self.cursor_position = position;
            Ok(())
        } else {
            Err(Error::SetCursor(SetCursorError::InvalidPosition))
        }
    }

    /// Returns the area with the cursor: the area last drawn over by the cursor, or else the cell at
    /// the cursor position.
    pub fn cursor_coverage(&self, cell_size: Size) -> (r: Result<Rectangle, MeasureError>)
        ensures
            match self.cursor_coverage {
                Some(c) => r == Ok::<Rectangle, MeasureError>(c),
                None => match cell_origin(cell_size, self.cursor_position.x, self.cursor_position.y) {
                    Some(p) => r matches Ok(a) && a == (Rectangle { top_left: p, size: cell_size }),
                    None => r matches Err(MeasureError::InvalidSize),
                },
            },
    {
        match self.cursor_coverage {
            Some(coverage) => Ok(coverage),
            None => {
                let top_left = match cell_top_left(
                    cell_size,
                    self.cursor_position.x,
                    self.cursor_position.y,
                ) {
                    Ok(p) => p,
                    Err(e) => return Err(e),
                };
                Ok(Rectangle::new(top_left, cell_size))
            },
        }
    }

    /// Returns the areas of a draw target to fill when clearing a region relative to the area with
    /// the cursor.
    pub fn clear_areas(&self, all_pixels: Rectangle, cell_size: Size, clear_type: ClearType) -> (r:
        Result<Vec<Rectangle>, MeasureError>)
        ensures
            match self.cursor_coverage {
                Some(c) => r matches Ok(v) && v@ == clear_region_areas(all_pixels, c, clear_type),
                None => match cell_origin(cell_size, self.cursor_position.x, self.cursor_position.y) {
                    Some(p) => r matches Ok(v) && v@ == clear_region_areas(
                        all_pixels,
                        Rectangle { top_left: p, size: cell_size },
                        clear_type,
                    ),
                    None => r matches Err(MeasureError::InvalidSize),
                },
            },
    {
        let coverage = match self.cursor_coverage(cell_size) {
            Ok(c) => c,
            Err(e) => return Err(e),
        };
        let top = coverage.top_left.y;
        let bottom = sat_add_unsigned_i32(top, coverage.size.height);
        let current_line = all_pixels.y_reduce(top, bottom);
        let mut areas: Vec<Rectangle> = Vec::new();
        match clear_type {
            ClearType::All => {
                areas.push(all_pixels);
            },
            ClearType::AfterCursor => {
                areas.push(coverage);
                areas.push(current_line.right_of(&coverage));
                areas.push(all_pixels.below(&current_line));
            },
            ClearType::BeforeCursor => {
                areas.push(coverage);
                areas.push(current_line.left_of(&coverage));
                areas.push(all_pixels.above(&current_line));
            },
            ClearType::CurrentLine => {
                areas.push(current_line);
            },
            ClearType::UntilNewLine => {
                areas.push(coverage);
                areas.push(current_line.right_of(&coverage));
            },
        }
        proof {
            assert(areas@ =~= clear_region_areas(all_pixels, coverage, clear_type));
        }
        Ok(areas)
    }

    /// Records that the cursor has been drawn over an area.
    pub fn cover_cursor(&mut self, area: Rectangle)
        ensures
            final(self).cursor_coverage == Some(area),
            final(self).cursor_position == old(self).cursor_position,
    {
        self.cursor_coverage = Some(area);
    }

    /// Records that the area with the cursor has been cleared.
    pub fn uncover_cursor(&mut self)
        ensures
            final(self).cursor_coverage is None,
            final(self).cursor_position == old(self).cursor_position,
    {
        self.cursor_coverage = None;
    }
}

impl Default for State {
    fn default() -> (r: Self)
        ensures
            r.cursor_position == (Position { x: 0, y: 0 }),
            r.cursor_coverage is None,
    {
        Self::new()
    }
}

} // verus!
