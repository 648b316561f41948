//! Types for specifying how to render a cursor.

use vstd::prelude::*;

use crate::blink::Blink;
use crate::geometry::Rectangle;
use crate::style::Color;
use vstd::std_specs::cmp::PartialEqSpec;

verus! {

/// Method of choosing colors for a cursor.
#[derive(Debug, Clone, Copy, PartialEq, Eq, Structural)]
pub enum Colors {
    /// Render the cursor with the reset foreground and background colors of the backend swapped
    /// with each other to become the foreground and background colors.
    ReversedReset,
    /// Render the cursor with the reset foreground and background colors of the backend negated
    /// to become the foreground and background colors.
    InvertedReset,
    /// Render the cursor with custom foreground and background colors.
    Custom {
        /// The foreground color of the cursor.
        fg: Color,
        /// The background color of the cursor.
        bg: Color,
    },
}

/// Shape that represents the cursor inside of the cell area.
#[derive(Debug, Clone, Copy, PartialEq, Eq, Structural)]
pub enum Extent {
    /// Render the cursor with a rectangular shape that fills the entire area of the cell or cells.
    FullBlock,
    /// Render the cursor with a rectangular shape that has the specified width and is positioned
    /// inside of the cell area, against its left side, extending to the right while also filling
    /// the entire height of the cell.
    VerticalBar {
        /// The width of the vertical bar.
        width: u32,
    },
    /// Render the cursor with a rectangular shape that has the specified height and is positioned
    /// below the text baseline, where the top of the text underline is also positioned, extending
    /// downwards and filling the entire width of the cell or cells.
    Underline {
        /// The height of the underline.
        height: u32,
    },
    /// Render the cursor with a custom rectangular shape that is positioned inside of the cell
    /// area in the top-left corner, offset by its top-left point and having its size.
    Custom(Rectangle),
}

/// Source of the content that a cursor uses to symbolize itself.
#[derive(Debug, Clone, Copy)]
pub enum Symbol<'a> {
    /// Render the cursor with the symbol found at the position of the cursor, using the foreground
    /// and background colors assigned to the cursor.
    UnderCursor,
    /// Render the cursor with a custom symbol (for example, `🮕`) that is found in the bitmap font,
    /// specified as a string slice.
    Custom(&'a str),
}

/// Two symbols are the same source: both the symbol under the cursor, or custom symbols with the
/// same characters.
pub open spec fn same_symbol(a: Symbol, b: Symbol) -> bool {
    match (a, b) {
        (Symbol::UnderCursor, Symbol::UnderCursor) => true,
        (Symbol::Custom(s), Symbol::Custom(t)) => s@ == t@,
        _ => false,
    }
}

impl<'a> PartialEq for Symbol<'a> {
    fn eq(&self, other: &Self) -> (r: bool) {
        match (*self, *other) {
            (Symbol::UnderCursor, Symbol::UnderCursor) => true,
            (Symbol::Custom(s), Symbol::Custom(t)) => s.to_owned() == t.to_owned(),
            _ => false,
        }
    }
}

impl<'a> vstd::std_specs::cmp::PartialEqSpecImpl for Symbol<'a> {
    open spec fn obeys_eq_spec() -> bool {
        true
    }

    open spec fn eq_spec(&self, other: &Self) -> bool {
        same_symbol(*self, *other)
    }
}

impl<'a> Eq for Symbol<'a> {}

/// Symbols compare equal exactly when they are the same source: two custom symbols are equal
/// exactly when they hold the same characters, whatever their lengths, and the symbol under the
/// cursor equals only itself.
pub proof fn symbols_equal_by_characters(a: &str, b: &str)
    ensures
        Symbol::Custom(a).eq_spec(&Symbol::Custom(b)) <==> a@ == b@,
        Symbol::UnderCursor.eq_spec(&Symbol::UnderCursor),
        !Symbol::UnderCursor.eq_spec(&Symbol::Custom(a)),
        !Symbol::Custom(a).eq_spec(&Symbol::UnderCursor),
{
}

impl Symbol<'static> {
    /// The cursor shape is filled with a solid color, the background color assigned to the cursor,
    /// or the foreground color assigned when reversed text is found at the position of the cursor.
    pub fn space() -> (r: Symbol<'static>)
        ensures
            r matches Symbol::Custom(s) && s@ == seq![' '],
    {
        proof {
            reveal_strlit(" ");
        }
        Symbol::Custom(" ")
    }
}

/// Cursor indicator appearance settings.
#[derive(Debug, Clone, Copy)]
pub struct Cursor<'a> {
    /// The blink animation cycle.
    pub blink: Blink,
    /// The method of choosing colors.
    pub colors: Colors,
    /// The extent of the drawing area.
    pub extent: Extent,
    /// The source of the symbol drawn.
    pub symbol: Symbol<'a>,
}

impl<'a> Cursor<'a> {
    /// Creates a new cursor that is solid on, uses the reset colors swapped with one another,
    /// drawing to the entire area of the cell or cells. This is default configuration for a
    /// cursor, and it also renders the symbol found at the position of the cursor.
    pub fn const_default() -> (r: Self)
        ensures
            r.blink == Blink::Repeat(0, 0),
            r.colors == Colors::ReversedReset,
            r.extent == Extent::FullBlock,
            r.symbol == Symbol::<'a>::UnderCursor,
    {
        Cursor {
            blink: Blink::with_period(0),
            colors: Colors::ReversedReset,
            extent: Extent::FullBlock,
            symbol: Symbol::UnderCursor,
        }
    }

    /// Sets the blinking animation to have a single frame that always shows the cursor being on.
    pub fn solid_on(self) -> (r: Self)
        ensures
            r == (Cursor { blink: Blink::Repeat(0, 0), ..self }),
    {
        self.blink(Blink::with_period(0))
    }

    /// Sets the blink animation cycle for the cursor.
    pub fn blink(self, blink: Blink) -> (r: Self)
        ensures
            r == (Cursor { blink, ..self }),
    {
        let mut cursor = self;
        cursor.blink = blink;
        cursor
    }

    /// Sets the method used by the cursor for choosing colors.
    pub fn colors(self, colors: Colors) -> (r: Self)
        ensures
            r == (Cursor { colors, ..self }),
    {
        let mut cursor = self;
        cursor.colors = colors;
        cursor
    }

    /// Sets the shape that represents the cursor inside of the cell area.
    pub fn extent(self, extent: Extent) -> (r: Self)
        ensures
            r == (Cursor { extent, ..self }),
    {
        let mut cursor = self;
        cursor.extent = extent;
        cursor
    }

    /// Sets the source of the content that the cursor uses to symbolize itself.
    pub fn symbol<'b>(self, symbol: Symbol<'b>) -> (r: Cursor<'b>)
        ensures
            r.blink == self.blink,
            r.colors == self.colors,
            r.extent == self.extent,
            r.symbol == symbol,
    {
        Cursor { blink: self.blink, colors: self.colors, extent: self.extent, symbol }
    }
}

impl<'a> Default for Cursor<'a> {
    fn default() -> (r: Self)
        ensures
            r.blink == Blink::Repeat(0, 0),
            r.colors == Colors::ReversedReset,
            r.extent == Extent::FullBlock,
            r.symbol == Symbol::<'a>::UnderCursor,
    {
        Self::const_default()
    }
}

} // verus!
