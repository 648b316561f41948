//! Terminal colors and text modifiers, as found in the cells that a terminal asks to draw.

use vstd::prelude::*;

verus! {

/// A terminal color: the reset color, one of the 16 named colors, a 24-bit color, or an index into
/// a 256-color palette.
#[derive(Debug, Clone, Copy, PartialEq, Eq, Structural, Hash)]
pub enum Color {
    /// The default color of the terminal.
    Reset,
    /// ANSI color 0.
    Black,
    /// ANSI color 1.
    Red,
    /// ANSI color 2.
    Green,
    /// ANSI color 3.
    Yellow,
    /// ANSI color 4.
    Blue,
    /// ANSI color 5.
    Magenta,
    /// ANSI color 6.
    Cyan,
    /// ANSI color 7.
    Gray,
    /// ANSI color 8.
    DarkGray,
    /// ANSI color 9.
    LightRed,
    /// ANSI color 10.
    LightGreen,
    /// ANSI color 11.
    LightYellow,
    /// ANSI color 12.
    LightBlue,
    /// ANSI color 13.
    LightMagenta,
    /// ANSI color 14.
    LightCyan,
    /// ANSI color 15.
    White,
    /// A 24-bit color given by its red, green, and blue components.
    Rgb(u8, u8, u8),
    /// An index into a 256-color palette.
    Indexed(u8),
}

/// The bit of bold text in a [`Modifier`].
pub const BOLD: u16 = 0b0000_0000_0001;

/// The bit of dim text in a [`Modifier`].
pub const DIM: u16 = 0b0000_0000_0010;

/// The bit of italic text in a [`Modifier`].
pub const ITALIC: u16 = 0b0000_0000_0100;

/// The bit of underlined text in a [`Modifier`].
pub const UNDERLINED: u16 = 0b0000_0000_1000;

/// The bit of slowly blinking text in a [`Modifier`].
pub const SLOW_BLINK: u16 = 0b0000_0001_0000;

/// The bit of rapidly blinking text in a [`Modifier`].
pub const RAPID_BLINK: u16 = 0b0000_0010_0000;

/// The bit of reversed text in a [`Modifier`].
pub const REVERSED: u16 = 0b0000_0100_0000;

/// The bit of hidden text in a [`Modifier`].
pub const HIDDEN: u16 = 0b0000_1000_0000;

/// The bit of crossed-out text in a [`Modifier`].
pub const CROSSED_OUT: u16 = 0b0001_0000_0000;

/// A set of text modifiers, one bit per modifier.
#[derive(Debug, Clone, Copy, PartialEq, Eq, Structural, Hash)]
pub struct Modifier {
    /// The bits of the set.
    pub bits: u16,
}

impl Modifier {
    /// The empty set.
    pub fn empty() -> (r: Modifier)
        ensures
            r.bits == 0,
    {
        Modifier { bits: 0 }
    }

    /// Whether the two sets have a modifier in common.
    pub fn intersects(&self, other: Modifier) -> (r: bool)
        ensures
            r == (self.bits & other.bits != 0),
    {
        self.bits & other.bits != 0
    }

    /// The modifiers in both sets.
    pub fn intersection(&self, other: Modifier) -> (r: Modifier)
        ensures
            r.bits == self.bits & other.bits,
    {
        Modifier { bits: self.bits & other.bits }
    }

    /// The modifiers in either set.
    pub fn union(&self, other: Modifier) -> (r: Modifier)
        ensures
            r.bits == self.bits | other.bits,
    {
        Modifier { bits: self.bits | other.bits }
    }
}

} // verus!
