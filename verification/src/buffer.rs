//! The content of a single terminal cell, as handed to the backend for drawing.

use vstd::prelude::*;

use crate::style::{Color, Modifier};

verus! {

/// The number of columns that a string occupies on a terminal, as computed by the `unicode-width`
/// crate.
pub uninterp spec fn display_width(s: Seq<char>) -> usize;

/// Calls `unicode_width::UnicodeWidthStr::width`, whose result is the column count of `s`, a
/// function of `s` alone, named [`display_width`]; nothing more of it is stated here.
#[verifier::external_body]
fn str_width(s: &str) -> (r: usize)
    ensures
        r == display_width(s@),
{
    unicode_width::UnicodeWidthStr::width(s)
}

/// The content of a terminal cell: its symbol (a character or character cluster), its colors,
/// and its text modifiers.
#[derive(Debug)]
pub struct Cell {
    /// The symbol drawn in the cell; a single space for an empty cell.
    pub symbol: String,
    /// The foreground color.
    pub fg: Color,
    /// The background color.
    pub bg: Color,
    /// The color of the underline decoration.
    pub underline_color: Color,
    /// The text modifiers.
    pub modifier: Modifier,
}

impl Cell {
    /// Returns an empty cell: a single space, drawn with the reset colors and no modifiers.
    pub fn empty() -> (r: Cell)
        ensures
            r.symbol@ == seq![' '],
            r.fg == Color::Reset,
            r.bg == Color::Reset,
            r.underline_color == Color::Reset,
            r.modifier.bits == 0,
    {
        proof {
            reveal_strlit(" ");
        }
        Cell {
            symbol: " ".to_owned(),
            fg: Color::Reset,
            bg: Color::Reset,
            underline_color: Color::Reset,
            modifier: Modifier::empty(),
        }
    }

    /// Returns the symbol of the cell.
    pub fn symbol(&self) -> (r: &str)
        ensures
            r@ == self.symbol@,
    {
        self.symbol.as_str()
    }

    /// Returns the number of columns that the symbol of the cell occupies.
    pub fn width(&self) -> (r: usize)
        ensures
            r == display_width(self.symbol@),
    {
        str_width(self.symbol.as_str())
    }
}

impl Clone for Cell {
    fn clone(&self) -> (r: Self)
        ensures
            r == *self,
    {
        Cell {
            symbol: self.symbol.clone(),
            fg: self.fg,
            bg: self.bg,
            underline_color: self.underline_color,
            modifier: self.modifier,
        }
    }
}

} // verus!
