//! Positions and sizes measured in terminal cells, and the kinds of region that a terminal asks
//! the backend to clear.

use vstd::prelude::*;

verus! {

/// A position in the text area: a column and a row.
#[derive(Debug, Clone, Copy, PartialEq, Eq, Structural, Hash)]
pub struct Position {
    /// The column, counting from the left edge.
    pub x: u16,
    /// The row, counting from the top edge.
    pub y: u16,
}

/// A size in terminal cells.
#[derive(Debug, Clone, Copy, PartialEq, Eq, Structural, Hash)]
pub struct Size {
    /// The number of columns.
    pub width: u16,
    /// The number of rows.
    pub height: u16,
}

/// The size of the text area, in cells and in pixels.
#[derive(Debug, Clone, Copy, PartialEq, Eq, Structural, Hash)]
pub struct WindowSize {
    /// The number of columns and rows.
    pub columns_rows: Size,
    /// The width and height in pixels.
    pub pixels: Size,
}

/// The region of the text area to clear, relative to the cursor.
#[derive(Debug, Clone, Copy, PartialEq, Eq, Structural, Hash)]
pub enum ClearType {
    /// The entire text area.
    All,
    /// The cursor cell and everything after it.
    AfterCursor,
    /// The cursor cell and everything before it.
    BeforeCursor,
    /// The line of the cursor.
    CurrentLine,
    /// The cursor cell and the rest of its line.
    UntilNewLine,
}

impl Position {
    /// The top-left position.
    pub fn origin() -> (r: Position)
        ensures
            r == (Position { x: 0, y: 0 }),
    {
        Position { x: 0, y: 0 }
    }

    /// Creates a position.
    pub fn new(x: u16, y: u16) -> (r: Position)
        ensures
            r == (Position { x, y }),
    {
        Position { x, y }
    }
}

impl Size {
    /// Creates a size.
    pub fn new(width: u16, height: u16) -> (r: Size)
        ensures
            r == (Size { width, height }),
    {
        Size { width, height }
    }
}

} // verus!
