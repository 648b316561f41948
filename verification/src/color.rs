//! Color palettes that allow the backend to render text in color.
//!
//! Color definitions are found in an instance of [`Palette`], which maps terminal colors to colors
//! of the draw target through [`MapWith`].

use embedded_graphics::pixelcolor::Rgb888;
use vstd::prelude::*;

use crate::style::Color;
use vstd::std_specs::convert::FromSpec;

verus! {

/// The 24-bit color type of `embedded-graphics`, passed through as an opaque value.
#[verifier::external_type_specification]
#[verifier::external_body]
pub struct ExRgb888(Rgb888);

/// Palette for looking up colors of type `T`, where `T` is the color associated with the
/// draw target for the backend.
///
/// Variants of this type do not own any arrays of colors. Some of the variants, however,
/// do hold references to arrays, which is the reason for having a lifetime parameter.
#[derive(Debug, Clone, Copy)]
pub enum Palette<'a, T> {
    /// A palette with no color information. Useful for monochrome displays because, with
    /// [`Palette::Reset`], all colors map to [`None`], discarding any color information.
    Reset,
    /// A palette with 16 color entries, with three color and one intensity channels, one
    /// bit per channel. 256-color indices and 24-bit colors are folded into these entries.
    Ansi16(&'a [T; 16]),
    /// A palette with 256 color entries: the 16 entries of [`Palette::Ansi16`], a 6×6×6 color
    /// cube, and a grayscale ramp. 24-bit colors are converted by the draw target's color type.
    Ansi256(&'a [T; 256]),
}

/// Classifies a color component of a 24-bit color as dark (`0`), medium (`1`), or bright (`2`).
pub open spec fn level(v: u8) -> int {
    if v < 96 {
        0
    } else if v < 176 {
        1
    } else {
        2
    }
}

/// The entry of a 16-color palette that a 24-bit color folds into: colors without bright
/// components pick the non-bright entry of the medium components (all medium being dark gray),
/// colors with some but not all components bright pick the bright entry of those components, and
/// colors with all components bright are white if two of them are very bright, else light gray.
pub open spec fn rgb_ansi16_index(r: u8, g: u8, b: u8) -> int {
    let rb: int = if r >= 176 { 1 } else { 0 };
    let gb: int = if g >= 176 { 1 } else { 0 };
    let bb: int = if b >= 176 { 1 } else { 0 };
    let rm: int = if level(r) == 1 { 1 } else { 0 };
    let gm: int = if level(g) == 1 { 1 } else { 0 };
    let bm: int = if level(b) == 1 { 1 } else { 0 };
    let rw: int = if r >= 216 { 1 } else { 0 };
    let gw: int = if g >= 216 { 1 } else { 0 };
    let bw: int = if b >= 216 { 1 } else { 0 };
    if rb + gb + bb == 0 {
        if rm + gm + bm == 3 {
            8
        } else {
            rm + 2 * gm + 4 * bm
        }
    } else if rb + gb + bb < 3 {
        8 + rb + 2 * gb + 4 * bb
    } else if rw + gw + bw >= 2 {
        15
    } else {
        7
    }
}

/// The level of a color component at step `k` of the 6×6×6 color cube of 256-color palettes.
pub open spec fn cube_level(k: int) -> u8 {
    if k == 0 {
        0
    } else {
        (55 + 40 * k) as u8
    }
}

/// The entry of a 16-color palette that an entry of the color cube folds into: the entry that its
/// 24-bit color folds into.
pub open spec fn cube_ansi16_index(i: u8) -> int {
    let n = i - 16;
    rgb_ansi16_index(cube_level(n / 36), cube_level(n / 6 % 6), cube_level(n % 6))
}

/// The entry of a 16-color palette that a 256-color index folds into: the same entry for the first
/// 16 indices, listed entries for the darker colors of the cube and for the grayscale ramp, and,
/// for the other colors of the cube, the entry that their 24-bit color folds into.
pub open spec fn indexed_ansi16_index(i: u8) -> int {
    if i < 16 {
        i as int
    } else if i == 16 || i == 17 {
        0
    } else if i == 18 || i == 19 {
        4
    } else if i == 20 || i == 21 {
        12
    } else if i == 22 || i == 28 {
        2
    } else if (23 <= i < 28) || (29 <= i < 34) {
        6
    } else if 34 <= i < 52 {
        cube_ansi16_index(i)
    } else if i == 52 || i == 88 {
        1
    } else if (53 <= i < 58) || (89 <= i < 94) {
        5
    } else if i == 58 || i == 64 || i == 94 || i == 100 {
        3
    } else if (59 <= i < 64) || (65 <= i < 70) || (95 <= i < 100) || (101 <= i < 106) {
        8
    } else if (70 <= i < 88) || (106 <= i < 231) {
        cube_ansi16_index(i)
    } else if i == 231 {
        15
    } else if 232 <= i < 240 {
        0
    } else if 240 <= i < 248 {
        8
    } else if 248 <= i < 252 {
        7
    } else {
        15
    }
}

/// The ANSI index of a named color; `None` for the reset color and the other variants.
pub open spec fn named_index(c: Color) -> Option<int> {
    match c {
        Color::Black => Some(0),
        Color::Red => Some(1),
        Color::Green => Some(2),
        Color::Yellow => Some(3),
        Color::Blue => Some(4),
        Color::Magenta => Some(5),
        Color::Cyan => Some(6),
        Color::Gray => Some(7),
        Color::DarkGray => Some(8),
        Color::LightRed => Some(9),
        Color::LightGreen => Some(10),
        Color::LightYellow => Some(11),
        Color::LightBlue => Some(12),
        Color::LightMagenta => Some(13),
        Color::LightCyan => Some(14),
        Color::White => Some(15),
        _ => None,
    }
}

/// The entry of a 16-color palette that a color maps to, if any.
pub open spec fn ansi16_entry(c: Color) -> Option<int> {
    match c {
        Color::Reset => None,
        Color::Rgb(r, g, b) => Some(rgb_ansi16_index(r, g, b)),
        Color::Indexed(i) => Some(indexed_ansi16_index(i)),
        _ => named_index(c),
    }
}

/// The entry of a 256-color palette that a color maps to, if it maps to an entry.
pub open spec fn ansi256_entry(c: Color) -> Option<int> {
    match c {
        Color::Reset => None,
        Color::Rgb(..) => None,
        Color::Indexed(i) => Some(i as int),
        _ => named_index(c),
    }
}

/// The 24-bit color with the given components, as `Rgb888::new` of `embedded-graphics` creates it.
pub uninterp spec fn rgb888_of(r: u8, g: u8, b: u8) -> Rgb888;

/// Converts a 24-bit color to the color type `T` by calling `Rgb888::new`, whose result is named
/// [`rgb888_of`], and then `From<Rgb888>::from` of `T`. When the conversion of `T` follows its
/// specification, the result is that conversion of the 24-bit color; what a conversion without a
/// specification returns is left unsaid.
#[verifier::external_body]
fn rgb_to_color<T: From<Rgb888>>(r: u8, g: u8, b: u8) -> (c: T)
    ensures
        <T as FromSpec<Rgb888>>::obeys_from_spec() ==> c == T::from_spec(rgb888_of(r, g, b)),
{
    Rgb888::new(r, g, b).into()
}

/// Color mapping to type `T`, where an instance of [`Palette`] adds a layer of indirection between
/// the value to map and the return value.
pub trait MapWith<T> {
    /// Maps the value, retrieving the corresponding color from the specified palette.
    fn map_with(&self, palette: Palette<T>) -> Option<T>;
}

/// Picks the entry of a 16-color palette for the color components of a 24-bit color.
fn rgb_to_ansi16(r: u8, g: u8, b: u8) -> (index: usize)
    ensures
        index == rgb_ansi16_index(r, g, b),
{
    if r < 96 && g < 96 && b < 96 {
        0
    } else if r >= 96 && r < 176 && g < 96 && b < 96 {
        1
    } else if r < 96 && g >= 96 && g < 176 && b < 96 {
        2
    } else if r >= 96 && r < 176 && g >= 96 && g < 176 && b < 96 {
        3
    } else if r < 96 && g < 96 && b >= 96 && b < 176 {
        4
    } else if r >= 96 && r < 176 && g < 96 && b >= 96 && b < 176 {
        5
    } else if r < 96 && g >= 96 && g < 176 && b >= 96 && b < 176 {
        6
    } else if r >= 96 && r < 176 && g >= 96 && g < 176 && b >= 96 && b < 176 {
        8
    } else if r >= 176 && g < 176 && b < 176 {
        9
    } else if r < 176 && g >= 176 && b < 176 {
        10
    } else if r >= 176 && g >= 176 && b < 176 {
        11
    } else if r < 176 && g < 176 && b >= 176 {
        12
    } else if r >= 176 && g < 176 && b >= 176 {
        13
    } else if r < 176 && g >= 176 && b >= 176 {
        14
    } else if r >= 176 && r < 216 && g >= 176 && g < 216 && b >= 176 && b < 216 {
        7
    } else if r >= 216 && g >= 176 && g < 216 && b >= 176 && b < 216 {
        7
    } else if r >= 176 && r < 216 && g >= 216 && b >= 176 && b < 216 {
        7
    } else if r >= 216 && g >= 216 && b >= 176 && b < 216 {
        15
    } else if r >= 176 && r < 216 && g >= 176 && g < 216 && b >= 216 {
        7
    } else if r >= 216 && g >= 176 && g < 216 && b >= 216 {
        15
    } else if r >= 176 && r < 216 && g >= 216 && b >= 216 {
        15
    } else {
        15
    }
}

/// The level of a color component at step `k` of the color cube.
fn cube_level_of(k: u8) -> (level: u8)
    requires
        k < 6,
    ensures
        level == cube_level(k as int),
{
    if k == 0 {
        0
    } else {
        55 + 40 * k
    }
}

/// Picks the entry of a 16-color palette for an entry of the color cube.
fn cube_to_ansi16(i: u8) -> (index: usize)
    requires
        16 <= i < 232,
    ensures
        index == cube_ansi16_index(i),
{
    let n = i - 16;
    rgb_to_ansi16(cube_level_of(n / 36), cube_level_of(n / 6 % 6), cube_level_of(n % 6))
}

/// Picks the entry of a 16-color palette for a 256-color index.
fn indexed_to_ansi16(i: u8) -> (index: usize)
    ensures
        index == indexed_ansi16_index(i),
{
    if i < 16 {
        i as usize
    } else if i == 16 || i == 17 {
        0
    } else if i == 18 || i == 19 {
        4
    } else if i == 20 || i == 21 {
        12
    } else if i == 22 || i == 28 {
        2
    } else if (23 <= i && i < 28) || (29 <= i && i < 34) {
        6
    } else if 34 <= i && i < 52 {
        cube_to_ansi16(i)
    } else if i == 52 || i == 88 {
        1
    } else if (53 <= i && i < 58) || (89 <= i && i < 94) {
        5
    } else if i == 58 || i == 64 || i == 94 || i == 100 {
        3
    } else if (59 <= i && i < 64) || (65 <= i && i < 70) || (95 <= i && i < 100) || (101 <= i
        && i < 106) {
        8
    } else if (70 <= i && i < 88) || (106 <= i && i < 231) {
        cube_to_ansi16(i)
    } else if i == 231 {
        15
    } else if 232 <= i && i < 240 {
        0
    } else if 240 <= i && i < 248 {
        8
    } else if 248 <= i && i < 252 {
        7
    } else {
        15
    }
}

/// The ANSI index of a named color.
fn named_to_index(c: Color) -> (index: Option<usize>)
    ensures
        match index {
            Some(k) => named_index(c) == Some(k as int),
            None => named_index(c) is None,
        },
{
    match c {
        Color::Black => Some(0),
        Color::Red => Some(1),
        Color::Green => Some(2),
        Color::Yellow => Some(3),
        Color::Blue => Some(4),
        Color::Magenta => Some(5),
        Color::Cyan => Some(6),
        Color::Gray => Some(7),
        Color::DarkGray => Some(8),
        Color::LightRed => Some(9),
        Color::LightGreen => Some(10),
        Color::LightYellow => Some(11),
        Color::LightBlue => Some(12),
        Color::LightMagenta => Some(13),
        Color::LightCyan => Some(14),
        Color::White => Some(15),
        _ => None,
    }
}

/// The color of type `T` that a 24-bit color converts to, when the conversion of `T` follows its
/// specification.
pub open spec fn converts_to<T: From<Rgb888>>(r: u8, g: u8, b: u8, t: T) -> bool {
    <T as FromSpec<Rgb888>>::obeys_from_spec() ==> t == <T as FromSpec<Rgb888>>::from_spec(
        rgb888_of(r, g, b),
    )
}

/// Whether `r` is what a color maps to in a palette: nothing with [`Palette::Reset`]; the entry
/// that the color folds into with [`Palette::Ansi16`]; with [`Palette::Ansi256`], its entry, or
/// the conversion of its components when the color is a 24-bit color.
pub open spec fn maps_to<T: From<Rgb888>>(c: Color, palette: Palette<T>, r: Option<T>) -> bool {
    match palette {
        Palette::Reset => r is None,
        Palette::Ansi16(colors) => match ansi16_entry(c) {
            Some(k) => r == Some(colors@[k]),
            None => r is None,
        },
        Palette::Ansi256(colors) => match ansi256_entry(c) {
            Some(k) => r == Some(colors@[k]),
            None => match c {
                Color::Rgb(red, green, blue) => r matches Some(t) && converts_to(red, green, blue, t),
                _ => r is None,
            },
        },
    }
}

/// When the conversion of the color type follows its specification, a color maps to a single
/// result in a palette.
pub proof fn maps_to_one_color<T: From<Rgb888>>(
    c: Color,
    palette: Palette<T>,
    r1: Option<T>,
    r2: Option<T>,
)
    requires
        <T as FromSpec<Rgb888>>::obeys_from_spec(),
        maps_to(c, palette, r1),
        maps_to(c, palette, r2),
    ensures
        r1 == r2,
{
}

impl<T: Copy + From<Rgb888>> MapWith<T> for Color {
    /// Maps the color, retrieving the corresponding color from the specified palette.
    fn map_with(&self, palette: Palette<T>) -> (r: Option<T>)
        ensures
            maps_to(*self, palette, r),
    {
        match palette {
            Palette::Reset => None,
            Palette::Ansi16(colors) => {
                let index = match *self {
                    Color::Reset => None,
                    Color::Rgb(r, g, b) => Some(rgb_to_ansi16(r, g, b)),
                    Color::Indexed(i) => Some(indexed_to_ansi16(i)),
                    other => named_to_index(other),
                };
                match index {
                    Some(k) => Some(colors[k]),
                    None => None,
                }
            },
            Palette::Ansi256(colors) => match *self {
                Color::Reset => None,
                Color::Rgb(r, g, b) => Some(rgb_to_color(r, g, b)),
                Color::Indexed(i) => Some(colors[i as usize]),
                other => match named_to_index(other) {
                    Some(k) => Some(colors[k]),
                    None => None,
                },
            },
        }
    }
}

/// In a 16-color palette, a 24-bit color with some but not all components bright (176 or more)
/// maps to the bright entry of those components: entry 8, plus 1 for bright red, 2 for bright
/// green, and 4 for bright blue. A color with no bright component maps to the non-bright entry of
/// its medium components (96 to 175), or to dark gray when all three are medium; a color with all
/// components bright maps to white when at least two of them are 216 or more, else to light gray.
pub proof fn rgb_picks_ansi16_entry<T: From<Rgb888>>(
    r: u8,
    g: u8,
    b: u8,
    colors: &[T; 16],
    res: Option<T>,
)
    requires
        maps_to(Color::Rgb(r, g, b), Palette::Ansi16(colors), res),
    ensures
        (r >= 176 || g >= 176 || b >= 176) && !(r >= 176 && g >= 176 && b >= 176) ==> res == Some(
            colors@[8 + (if r >= 176 { 1int } else { 0int }) + 2 * (if g >= 176 { 1int } else { 0int })
                + 4 * (if b >= 176 { 1int } else { 0int })],
        ),
        r < 176 && g < 176 && b < 176 && !(96 <= r && 96 <= g && 96 <= b) ==> res == Some(
            colors@[(if r >= 96 { 1int } else { 0int }) + 2 * (if g >= 96 { 1int } else { 0int })
                + 4 * (if b >= 96 { 1int } else { 0int })],
        ),
        96 <= r < 176 && 96 <= g < 176 && 96 <= b < 176 ==> res == Some(colors@[8]),
        r >= 176 && g >= 176 && b >= 176 ==> res == Some(
            colors@[if (r >= 216 && g >= 216) || (r >= 216 && b >= 216) || (g >= 216 && b >= 216) {
                15int
            } else {
                7int
            }],
        ),
{
}

/// In a 16-color palette, a 256-color index below 16 maps to the entry of that index, and the
/// grayscale ramp maps to black, dark gray, light gray and white as it brightens; in a 256-color
/// palette, every index maps to its own entry.
pub proof fn indexed_picks_entry<T: From<Rgb888>>(
    i: u8,
    colors16: &[T; 16],
    colors256: &[T; 256],
    res16: Option<T>,
    res256: Option<T>,
)
    requires
        maps_to(Color::Indexed(i), Palette::Ansi16(colors16), res16),
        maps_to(Color::Indexed(i), Palette::Ansi256(colors256), res256),
    ensures
        i < 16 ==> res16 == Some(colors16@[i as int]),
        232 <= i < 240 ==> res16 == Some(colors16@[0]),
        240 <= i < 248 ==> res16 == Some(colors16@[8]),
        248 <= i < 252 ==> res16 == Some(colors16@[7]),
        252 <= i || i == 231 ==> res16 == Some(colors16@[15]),
        res256 == Some(colors256@[i as int]),
{
}

/// In a 16-color palette, an entry of the 6×6×6 color cube that is neither among its darker colors
/// nor next to them maps to the same entry as its 24-bit color, whose components are 0 at step 0
/// and 55 + 40 × the step otherwise.
pub proof fn cube_index_maps_like_its_color<T: From<Rgb888>>(
    i: u8,
    r: u8,
    g: u8,
    b: u8,
    colors: &[T; 16],
    res_indexed: Option<T>,
    res_rgb: Option<T>,
)
    requires
        (34 <= i < 52) || (70 <= i < 88) || (106 <= i < 231),
        r == (if (i - 16) / 36 == 0 { 0 } else { 55 + 40 * ((i - 16) / 36) }),
        g == (if (i - 16) / 6 % 6 == 0 { 0 } else { 55 + 40 * ((i - 16) / 6 % 6) }),
        b == (if (i - 16) % 6 == 0 { 0 } else { 55 + 40 * ((i - 16) % 6) }),
        maps_to(Color::Indexed(i), Palette::Ansi16(colors), res_indexed),
        maps_to(Color::Rgb(r, g, b), Palette::Ansi16(colors), res_rgb),
    ensures
        res_indexed == res_rgb,
{
}

/// Every 24-bit color folds into one of the 16 entries of a 16-color palette.
pub proof fn rgb_folds_into_ansi16(r: u8, g: u8, b: u8)
    ensures
        0 <= rgb_ansi16_index(r, g, b) < 16,
        ansi16_entry(Color::Rgb(r, g, b)) == Some(rgb_ansi16_index(r, g, b)),
{
}

/// The first 16 indices of a 256-color index name the same entries as the 16 named colors, in
/// both kinds of palette, and every entry that a color maps to lies within its palette.
pub proof fn indexed_agrees_with_named(c: Color, i: u8)
    requires
        named_index(c) == Some(i as int),
    ensures
        ansi16_entry(Color::Indexed(i)) == ansi16_entry(c),
        ansi256_entry(Color::Indexed(i)) == ansi256_entry(c),
        ansi16_entry(c) == Some(i as int),
        i < 16,
{
}

/// Every entry that a color maps to lies within the palette that it is looked up in, and every
/// 256-color index folds into one of the entries of a 16-color palette.
pub proof fn entries_within_palette(c: Color)
    ensures
        ansi16_entry(c) matches Some(k) ==> 0 <= k < 16,
        c is Indexed ==> ansi16_entry(c) is Some,
        ansi256_entry(c) matches Some(k) ==> 0 <= k < 256,
{
}

} // verus!
