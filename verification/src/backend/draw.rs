//! The decisions behind drawing a cell: its colors and text decorations, whether it is hidden,
//! blank, or has glyph images (in the regular or the bold font), and the areas of the draw target
//! that its glyph images, its padding, and the cursor cover.

use embedded_graphics::pixelcolor::Rgb888;
use vstd::prelude::*;

use super::rect::{
    above_area, below_area, indented_area, left_of_area, y_reduced_area, RectangleExt,
};
use super::covered_by;
use crate::buffer::Cell;
use crate::color::{maps_to, maps_to_one_color, MapWith, Palette};
use crate::cursor::{Colors, Extent, Symbol};
use crate::geometry::{
    anchor_shift, clamp_i32, clamp_u32, intersection, max_int, min_int, min_u32, nonneg_u32,
    rectangle_intersection, resized_width, sat_add_i32, sat_add_unsigned_i32, sat_sub_i32,
    sat_sub_u32, translate, AnchorX, Point, Rectangle, Size,
};
use crate::style::{
    Color, Modifier, BOLD, CROSSED_OUT, DIM, HIDDEN, ITALIC, RAPID_BLINK, REVERSED, SLOW_BLINK,
    UNDERLINED,
};
use vstd::std_specs::convert::FromSpec;

verus! {

/// A color for drawing, before the color type of the draw target applies its own operations.
#[derive(Debug, Clone, Copy)]
pub enum Shade<T> {
    /// This color.
    Color(T),
    /// The inverse of the default color of the color type: white, or enabled.
    Light,
    /// The default color of the color type: black, or disabled.
    Dark,
}

/// The color of a text decoration.
#[derive(Debug, Clone, Copy)]
pub enum Decoration<T> {
    /// The decoration is not drawn.
    Off,
    /// The decoration has the color of the text.
    TextColor,
    /// The decoration has this color.
    Custom(T),
}

/// How the colors and decorations of a cell are drawn: the text color and the background color,
/// each inverted if `inverted`; then the text color blended toward the background color if `dim`;
/// then the two swapped if `reversed`.
#[derive(Debug, Clone, Copy)]
pub struct CellStyle<T> {
    /// The text color.
    pub text: Shade<T>,
    /// The background color.
    pub background: Shade<T>,
    /// Both colors are inverted.
    pub inverted: bool,
    /// The text color is blended toward the background color.
    pub dim: bool,
    /// The text and background colors swap places.
    pub reversed: bool,
    /// The color of the underline.
    pub underline: Decoration<T>,
    /// The color of the strikethrough line.
    pub strikethrough: Decoration<T>,
}

/// Whether a set of modifiers has the modifier with bit `bit`.
pub open spec fn has(m: Modifier, bit: u16) -> bool {
    m.bits & bit != 0
}

/// The shade of a reset color: the color if one is set, else the fallback.
pub open spec fn reset_shade<T>(reset: Option<T>, fallback: Shade<T>) -> Shade<T> {
    match reset {
        Some(r) => Shade::Color(r),
        None => fallback,
    }
}

/// Whether `s` is the shade of a color: what the color maps to in the palette, or else the reset
/// color, or else the fallback.
pub open spec fn shade_of<T: From<Rgb888>>(
    c: Color,
    palette: Palette<T>,
    reset: Option<T>,
    fallback: Shade<T>,
    s: Shade<T>,
) -> bool {
    if maps_to(c, palette, None) {
        s == reset_shade(reset, fallback)
    } else {
        s matches Shade::Color(t) && maps_to(c, palette, Some(t))
    }
}

/// Whether `d` is the underline of a cell: off unless underlined, else the color that the
/// underline color maps to in the palette, or else the text color.
pub open spec fn underline_of<T: From<Rgb888>>(c: Color, palette: Palette<T>, underlined: bool, d: Decoration<
    T,
>) -> bool {
    if !underlined {
        d is Off
    } else if maps_to(c, palette, None) {
        d is TextColor
    } else {
        d matches Decoration::Custom(t) && maps_to(c, palette, Some(t))
    }
}

/// The strikethrough line of a cell: in the text color if crossed out, else off.
pub open spec fn strikethrough_of<T>(crossed_out: bool) -> Decoration<T> {
    if crossed_out {
        Decoration::TextColor
    } else {
        Decoration::Off
    }
}

/// The shade of a color: what it maps to in the palette, or else the reset color, or else the
/// fallback.
fn shade<T: Copy + From<Rgb888>>(
    c: Color,
    palette: Palette<T>,
    reset: Option<T>,
    fallback: Shade<T>,
) -> (s: Shade<T>)
    ensures
        shade_of(c, palette, reset, fallback, s),
{
    match c.map_with(palette) {
        Some(t) => Shade::Color(t),
        None => match reset {
            Some(r) => Shade::Color(r),
            None => fallback,
        },
    }
}

/// The shade of a reset color: the color if one is set, else the fallback.
fn reset_or<T: Copy>(reset: Option<T>, fallback: Shade<T>) -> (s: Shade<T>)
    ensures
        s == reset_shade(reset, fallback),
{
    match reset {
        Some(r) => Shade::Color(r),
        None => fallback,
    }
}

/// The underline of a cell, if underlined: the color that `c` maps to, or else the text color.
fn underline<T: Copy + From<Rgb888>>(c: Color, palette: Palette<T>, underlined: bool) -> (d:
    Decoration<T>)
    ensures
        underline_of(c, palette, underlined, d),
{
    if !underlined {
        Decoration::Off
    } else {
        match c.map_with(palette) {
            Some(t) => Decoration::Custom(t),
            None => Decoration::TextColor,
        }
    }
}

/// The strikethrough line of a cell: in the text color if crossed out, else off.
fn strikethrough<T>(crossed_out: bool) -> (d: Decoration<T>)
    ensures
        d == strikethrough_of::<T>(crossed_out),
{
    if crossed_out {
        Decoration::TextColor
    } else {
        Decoration::Off
    }
}

/// Whether `s` is the style of a cell: its foreground and background colors looked up in the
/// palette, falling back to the reset colors, and then to white on black; not inverted; dimmed,
/// reversed, underlined, and crossed out as its modifiers say.
pub open spec fn is_cell_style<T: From<Rgb888>>(
    cell: Cell,
    palette: Palette<T>,
    fg_reset: Option<T>,
    bg_reset: Option<T>,
    s: CellStyle<T>,
) -> bool {
    &&& shade_of(cell.fg, palette, fg_reset, Shade::Light, s.text)
    &&& shade_of(cell.bg, palette, bg_reset, Shade::Dark, s.background)
    &&& !s.inverted
    &&& s.dim == has(cell.modifier, DIM)
    &&& s.reversed == has(cell.modifier, REVERSED)
    &&& underline_of(cell.underline_color, palette, has(cell.modifier, UNDERLINED), s.underline)
    &&& s.strikethrough == strikethrough_of::<T>(has(cell.modifier, CROSSED_OUT))
}

/// Whether `s` is the style of the cursor drawn over a cell: the reset colors swapped, or the
/// reset colors inverted, or custom colors looked up like those of a cell; never dimmed; reversed
/// if the cell is; and with the decorations of the cell only when the cursor shows the symbol
/// under it.
pub open spec fn is_cursor_style<T: From<Rgb888>>(
    cell: Cell,
    colors: Colors,
    symbol: Symbol,
    palette: Palette<T>,
    fg_reset: Option<T>,
    bg_reset: Option<T>,
    s: CellStyle<T>,
) -> bool {
    &&& match colors {
        Colors::ReversedReset => {
            &&& s.text == reset_shade(bg_reset, Shade::Dark)
            &&& s.background == reset_shade(fg_reset, Shade::Light)
            &&& !s.inverted
        },
        Colors::InvertedReset => {
            &&& s.text == reset_shade(fg_reset, Shade::Light)
            &&& s.background == reset_shade(bg_reset, Shade::Dark)
            &&& s.inverted
        },
        Colors::Custom { fg, bg } => {
            &&& shade_of(fg, palette, fg_reset, Shade::Light, s.text)
            &&& shade_of(bg, palette, bg_reset, Shade::Dark, s.background)
            &&& !s.inverted
        },
    }
    &&& !s.dim
    &&& s.reversed == has(cell.modifier, REVERSED)
    &&& underline_of(
        cell.underline_color,
        palette,
        has(cell.modifier, UNDERLINED) && symbol is UnderCursor,
        s.underline,
    )
    &&& s.strikethrough == strikethrough_of::<T>(
        has(cell.modifier, CROSSED_OUT) && symbol is UnderCursor,
    )
}

/// Returns the colors and decorations of a cell: its foreground and background colors looked up in
/// the palette, falling back to the reset colors, and then to white on black; dimmed, reversed,
/// underlined, and crossed out as its modifiers say.
pub fn cell_style<T: Copy + From<Rgb888>>(
    cell: &Cell,
    palette: Palette<T>,
    fg_reset: Option<T>,
    bg_reset: Option<T>,
) -> (s: CellStyle<T>)
    ensures
        is_cell_style(*cell, palette, fg_reset, bg_reset, s),
        !s.inverted,
        s.dim == has(cell.modifier, DIM),
        s.reversed == has(cell.modifier, REVERSED),
{
    CellStyle {
        text: shade(cell.fg, palette, fg_reset, Shade::Light),
        background: shade(cell.bg, palette, bg_reset, Shade::Dark),
        inverted: false,
        dim: cell.modifier.intersects(Modifier { bits: DIM }),
        reversed: cell.modifier.intersects(Modifier { bits: REVERSED }),
        underline: underline(
            cell.underline_color,
            palette,
            cell.modifier.intersects(Modifier { bits: UNDERLINED }),
        ),
        strikethrough: strikethrough(cell.modifier.intersects(Modifier { bits: CROSSED_OUT })),
    }
}

/// Returns the colors and decorations of the cursor drawn over a cell: the reset colors swapped,
/// or inverted, or custom colors looked up like those of a cell; never dimmed, whatever the cell's
/// modifiers; reversed if the cell is; and with the decorations of the cell only when the cursor
/// shows the symbol under it.
pub fn cursor_style<T: Copy + From<Rgb888>>(
    cell: &Cell,
    colors: Colors,
    symbol: Symbol,
    palette: Palette<T>,
    fg_reset: Option<T>,
    bg_reset: Option<T>,
) -> (s: CellStyle<T>)
    ensures
        is_cursor_style(*cell, colors, symbol, palette, fg_reset, bg_reset, s),
        !s.dim,
        s.inverted == (colors is InvertedReset),
        s.reversed == has(cell.modifier, REVERSED),
{
    let under_cursor = match symbol {
        Symbol::UnderCursor => true,
        Symbol::Custom(_) => false,
    };
    let (text, background, inverted) = match colors {
        Colors::ReversedReset => (
            reset_or(bg_reset, Shade::Dark),
            reset_or(fg_reset, Shade::Light),
            false,
        ),
        Colors::InvertedReset => (
            reset_or(fg_reset, Shade::Light),
            reset_or(bg_reset, Shade::Dark),
            true,
        ),
        Colors::Custom { fg, bg } => (
            shade(fg, palette, fg_reset, Shade::Light),
            shade(bg, palette, bg_reset, Shade::Dark),
            false,
        ),
    };
    CellStyle {
        text,
        background,
        inverted,
        dim: false,
        reversed: cell.modifier.intersects(Modifier { bits: REVERSED }),
        underline: underline(
            cell.underline_color,
            palette,
            cell.modifier.intersects(Modifier { bits: UNDERLINED }) && under_cursor,
        ),
        strikethrough: strikethrough(
            cell.modifier.intersects(Modifier { bits: CROSSED_OUT }) && under_cursor,
        ),
    }
}


/// Whether a character is ASCII whitespace: a space, a tab, a line feed, a form feed, or a
/// carriage return.
pub open spec fn is_blank_char(c: char) -> bool {
    c == ' ' || c == '\t' || c == '\n' || c == '\x0C' || c == '\r'
}

/// Whether a text has only ASCII whitespace, which includes the empty text.
pub open spec fn is_blank(s: Seq<char>) -> bool {
    forall|i: int| 0 <= i < s.len() ==> is_blank_char(#[trigger] s[i])
}

/// Returns whether a text has only ASCII whitespace.
pub fn is_blank_text(text: &str) -> (r: bool)
    ensures
        r == is_blank(text@),
{
    let n = text.unicode_len();
    let mut i: usize = 0;
    while i < n
        invariant
            n == text@.len(),
            i <= n,
            forall|j: int| 0 <= j < i ==> is_blank_char(#[trigger] text@[j]),
        decreases n - i,
    {
        let c = text.get_char(i);
        if !(c == ' ' || c == '\t' || c == '\n' || c == '\x0C' || c == '\r') {
            assert(!is_blank_char(text@[i as int]));
            return false;
        }
        i = i + 1;
    }
    true
}

/// How the content of a cell is drawn.
#[derive(Debug, Clone, Copy, PartialEq, Eq, Structural)]
pub enum CellMode {
    /// The area of the cell is filled with the background color.
    Hidden,
    /// The text has no glyph images to draw: whitespace spans the area of the cell.
    Whitespace,
    /// The glyph images of the text are drawn with the regular font, then padded with whitespace.
    Glyphs,
    /// The glyph images of the text are drawn with the bold font, then padded with whitespace.
    BoldGlyphs,
}

/// How a text with the given modifiers is drawn: hidden text fills its area, blank text is drawn
/// as whitespace, bold text uses the bold font if there is one, and other text the regular font.
pub open spec fn mode_of(modifier: Modifier, text: Seq<char>, has_bold_font: bool) -> CellMode {
    if has(modifier, HIDDEN) {
        CellMode::Hidden
    } else if is_blank(text) {
        CellMode::Whitespace
    } else if has(modifier, BOLD) && has_bold_font {
        CellMode::BoldGlyphs
    } else {
        CellMode::Glyphs
    }
}

/// Returns how the content of a cell is drawn.
pub fn cell_mode(cell: &Cell, has_bold_font: bool) -> (m: CellMode)
    ensures
        m == mode_of(cell.modifier, cell.symbol@, has_bold_font),
{
    if cell.modifier.intersects(Modifier { bits: HIDDEN }) {
        CellMode::Hidden
    } else if is_blank_text(cell.symbol()) {
        CellMode::Whitespace
    } else if cell.modifier.intersects(Modifier { bits: BOLD }) && has_bold_font {
        CellMode::BoldGlyphs
    } else {
        CellMode::Glyphs
    }
}

/// The text that the cursor draws over a cell: the symbol of the cell, or its own symbol.
pub open spec fn cursor_text_of(cell: Cell, symbol: Symbol) -> Seq<char> {
    match symbol {
        Symbol::UnderCursor => cell.symbol@,
        Symbol::Custom(s) => s@,
    }
}

/// Returns the text that the cursor draws over a cell: the symbol of the cell, or its own symbol.
pub fn cursor_text<'a>(cell: &'a Cell, symbol: Symbol<'a>) -> (r: &'a str)
    ensures
        r@ == cursor_text_of(*cell, symbol),
{
    match symbol {
        Symbol::UnderCursor => cell.symbol(),
        Symbol::Custom(s) => s,
    }
}

/// Returns how the cursor is drawn over a cell: as the cell would be, but hidden and bold only when
/// the cursor shows the symbol under it.
pub fn cursor_mode(cell: &Cell, symbol: Symbol, has_bold_font: bool) -> (m: CellMode)
    ensures
        m == mode_of(
            if symbol is UnderCursor {
                cell.modifier
            } else {
                Modifier { bits: cell.modifier.bits & !(HIDDEN | BOLD) }
            },
            cursor_text_of(*cell, symbol),
            has_bold_font,
        ),
{
    let under_cursor = match symbol {
        Symbol::UnderCursor => true,
        Symbol::Custom(_) => false,
    };
    let text = cursor_text(cell, symbol);
    proof {
        let b = cell.modifier.bits;
        assert(b & !(HIDDEN | BOLD) & HIDDEN == 0 && b & !(HIDDEN | BOLD) & BOLD == 0)
            by (bit_vector);
    }
    if cell.modifier.intersects(Modifier { bits: HIDDEN }) && under_cursor {
        CellMode::Hidden
    } else if is_blank_text(text) {
        CellMode::Whitespace
    } else if cell.modifier.intersects(Modifier { bits: BOLD }) && has_bold_font && under_cursor {
        CellMode::BoldGlyphs
    } else {
        CellMode::Glyphs
    }
}


/// The width of the glyph images of a text drawn from column `left`, whose measured advance ends
/// at column `next_x`: the distance between the two, or zero if negative.
pub open spec fn inherent_width_of(left: i32, next_x: i32) -> int {
    max_int(clamp_i32(next_x - left), 0)
}

/// Where the glyph images of a text go, once the text has been measured.
#[derive(Debug, Clone, Copy, PartialEq, Eq, Structural)]
pub struct GlyphLayout {
    /// The width of the glyph images: the measured advance.
    pub inherent_width: u32,
    /// The area of the glyph images: the text area resized to their width about the anchor.
    pub crop_area: Rectangle,
    /// The width of the whitespace drawn after the glyph images to fill the rest of the text area.
    pub padding: u32,
}

/// Whether resizing a text area to the width of its glyph images keeps its left side within the
/// range of `i32`; outside of it, resizing would overflow.
pub open spec fn crop_fits(text_area: Rectangle, next_x: i32, anchor_x: AnchorX) -> bool {
    let width = inherent_width_of(text_area.top_left.x, next_x) as u32;
    i32::MIN <= text_area.top_left.x + anchor_shift(text_area.size.width, width, anchor_x)
        <= i32::MAX
}

/// Returns whether resizing a text area to the width of its glyph images keeps its left side
/// within the range of `i32`.
pub fn check_crop(text_area: Rectangle, next_x: i32, anchor_x: AnchorX) -> (r: bool)
    ensures
        r == crop_fits(text_area, next_x, anchor_x),
{
    let width = nonneg_u32(sat_sub_i32(next_x, text_area.top_left.x));
    let from: i64 = if text_area.size.width > i32::MAX as u32 {
        i32::MAX as i64
    } else if text_area.size.width == 0 {
        1
    } else {
        text_area.size.width as i64
    };
    let to: i64 = if width > i32::MAX as u32 {
        i32::MAX as i64
    } else if width == 0 {
        1
    } else {
        width as i64
    };
    let delta: i64 = from - to;
    let shift: i64 = match anchor_x {
        AnchorX::Left => 0,
        AnchorX::Center => delta / 2,
        AnchorX::Right => delta,
    };
    let x: i64 = text_area.top_left.x as i64 + shift;
    i32::MIN as i64 <= x && x <= i32::MAX as i64
}

/// Returns where the glyph images of a text go in its text area, given the column `next_x` where
/// the measured advance of the text ends: the area as wide as the glyph images, aligned with the
/// text area by the anchor, and the width of whitespace that fills the rest of the text area.
pub fn glyph_layout(text_area: Rectangle, next_x: i32, anchor_x: AnchorX) -> (g: GlyphLayout)
    requires
        crop_fits(text_area, next_x, anchor_x),
    ensures
        g.inherent_width == inherent_width_of(text_area.top_left.x, next_x),
        g.crop_area == (Rectangle {
            top_left: Point {
                x: (text_area.top_left.x + anchor_shift(
                    text_area.size.width,
                    g.inherent_width,
                    anchor_x,
                )) as i32,
                y: text_area.top_left.y,
            },
            size: Size { width: g.inherent_width, height: text_area.size.height },
        }),
        g.padding == clamp_u32(text_area.size.width - g.inherent_width),
{
    let inherent_width = nonneg_u32(sat_sub_i32(next_x, text_area.top_left.x));
    let crop_area = resized_width(text_area, inherent_width, anchor_x);
    GlyphLayout {
        inherent_width,
        crop_area,
        padding: sat_sub_u32(text_area.size.width, inherent_width),
    }
}

/// Returns the area of the clip area that text drawn with the regular font leaves to fill with the
/// background color: its pixels left of the glyph images, which an anchor other than the left side
/// moves to the right.
pub fn plain_fill_area(clip_area: Rectangle, layout: &GlyphLayout) -> (r: Rectangle)
    ensures
        r == left_of_area(clip_area, layout.crop_area),
        forall|px: int, py: int| #[trigger]
            r.contains(px, py) == (clip_area.contains(px, py) && px < layout.crop_area.top_left.x),
{
    let r = clip_area.left_of(&layout.crop_area);
    proof {
        assert forall|px: int, py: int| #[trigger]
            r.contains(px, py) == (clip_area.contains(px, py) && px
                < layout.crop_area.top_left.x) by {
            super::rect::left_of_is_left_part(clip_area, layout.crop_area, px, py);
        }
    }
    r
}

/// The areas of the clip area that the bold font leaves to fill with the background color: left
/// of the bounding box of its glyph images, right of their advance and the padding after it, and
/// below the bounding box.
pub open spec fn bold_fill_areas_of(
    clip_area: Rectangle,
    bounding_box: Rectangle,
    next_x: i32,
    padding: u32,
) -> Seq<Rectangle> {
    let below = below_area(clip_area, bounding_box);
    let wide = above_area(clip_area, below);
    let right = clamp_i32(next_x + padding) as i32;
    seq![left_of_area(wide, bounding_box), indented_area(wide, right), below]
}

/// Returns the areas of the clip area that text drawn with the bold font leaves to fill with the
/// background color, given the bounding box of its glyph images and the column `next_x` where
/// their advance ends.
pub fn bold_fill_areas(
    clip_area: Rectangle,
    bounding_box: Rectangle,
    next_x: i32,
    padding: u32,
) -> (v: Vec<Rectangle>)
    ensures
        v@ == bold_fill_areas_of(clip_area, bounding_box, next_x, padding),
{
    let below = clip_area.below(&bounding_box);
    let wide = clip_area.above(&below);
    let left = wide.left_of(&bounding_box);
    let right = wide.indent_to(sat_add_unsigned_i32(next_x, padding));
    let mut v: Vec<Rectangle> = Vec::new();
    v.push(left);
    v.push(right);
    v.push(below);
    proof {
        assert(v@ =~= bold_fill_areas_of(clip_area, bounding_box, next_x, padding));
    }
    v
}

/// The background fills of bold text cover exactly the pixels of the clip area that lie outside
/// of the text: below the bounding box of the glyph images, or, in the rows above that, left of the
/// bounding box or right of the advance and its padding.
pub proof fn bold_fill_covers_outside_of_text(
    clip_area: Rectangle,
    bounding_box: Rectangle,
    next_x: i32,
    padding: u32,
    px: int,
    py: int,
)
    requires
        clip_area.size.width <= i32::MAX,
        clip_area.size.height <= i32::MAX,
        bounding_box.top_left.y + bounding_box.size.height <= i32::MAX,
    ensures
        covered_by(bold_fill_areas_of(clip_area, bounding_box, next_x, padding), px, py)
            <==> clip_area.contains(px, py) && (py >= bounding_box.top_left.y
            + bounding_box.size.height || px < bounding_box.top_left.x || px >= clamp_i32(
            next_x + padding,
        )),
{
    let below = below_area(clip_area, bounding_box);
    let wide = above_area(clip_area, below);
    let right = clamp_i32(next_x + padding) as i32;
    let areas = bold_fill_areas_of(clip_area, bounding_box, next_x, padding);
    super::rect::below_is_lower_part(clip_area, bounding_box, px, py);
    super::rect::above_is_upper_part(clip_area, below, px, py);
    super::rect::left_of_is_left_part(wide, bounding_box, px, py);
    super::rect::indent_keeps_columns(wide, right, px, py);
    let outside = clip_area.contains(px, py) && (py >= bounding_box.top_left.y
        + bounding_box.size.height || px < bounding_box.top_left.x || px >= right);
    if outside {
        if py >= bounding_box.top_left.y + bounding_box.size.height {
            assert(areas[2].contains(px, py));
        } else if px < bounding_box.top_left.x {
            assert(areas[0].contains(px, py));
        } else {
            assert(areas[1].contains(px, py));
        }
    }
}


/// The rows of an underline cursor in a text area: from the top of the underline, which lies
/// `underline_offset` below the `baseline_top` offset of the font from the top of the text area,
/// down for `height` rows.
pub open spec fn underline_rows(
    text_area: Rectangle,
    baseline_top: i32,
    underline_offset: i32,
    height: u32,
) -> (i32, i32) {
    let top = clamp_i32(clamp_i32(baseline_top - underline_offset) + text_area.top_left.y);
    (top as i32, clamp_i32(top + height) as i32)
}

/// A cursor area given relative to the top-left corner of a text area, placed over it.
pub open spec fn placed_at(area: Rectangle, text_area: Rectangle) -> Rectangle {
    Rectangle {
        top_left: Point {
            x: (area.top_left.x + text_area.top_left.x) as i32,
            y: (area.top_left.y + text_area.top_left.y) as i32,
        },
        size: area.size,
    }
}

/// Whether the cursor extent can be placed over a text area: a custom area must be moved over it
/// and intersected with it within the range of `i32`; outside of it, the arithmetic overflows.
pub open spec fn cursor_clip_fits(text_area: Rectangle, extent: Extent) -> bool {
    match extent {
        Extent::Custom(area) => {
            &&& i32::MIN <= area.top_left.x + text_area.top_left.x <= i32::MAX
            &&& i32::MIN <= area.top_left.y + text_area.top_left.y <= i32::MAX
            &&& text_area.fits()
            &&& placed_at(area, text_area).fits()
        },
        _ => true,
    }
}

/// The area that the cursor covers in a text area: all of it; its left part, at most `width` wide;
/// the rows of the underline; or the custom area placed over it, where it meets the text area.
pub open spec fn cursor_clip_of(
    text_area: Rectangle,
    extent: Extent,
    baseline_top: i32,
    underline_offset: i32,
) -> Rectangle {
    match extent {
        Extent::FullBlock => text_area,
        Extent::VerticalBar { width } => Rectangle {
            size: Size {
                width: min_int(text_area.size.width as int, width as int) as u32,
                height: text_area.size.height,
            },
            ..text_area
        },
        Extent::Underline { height } => {
            let (top, bottom) = underline_rows(text_area, baseline_top, underline_offset, height);
            y_reduced_area(text_area, top, bottom)
        },
        Extent::Custom(area) => rectangle_intersection(text_area, placed_at(area, text_area)),
    }
}

/// Returns whether the cursor extent can be placed over a text area.
pub fn check_cursor_clip(text_area: Rectangle, extent: Extent) -> (r: bool)
    ensures
        r == cursor_clip_fits(text_area, extent),
{
    match extent {
        Extent::Custom(area) => {
            let x: i64 = area.top_left.x as i64 + text_area.top_left.x as i64;
            let y: i64 = area.top_left.y as i64 + text_area.top_left.y as i64;
            let fits_text = text_area.size.width <= i32::MAX as u32 && text_area.size.height
                <= i32::MAX as u32 && text_area.top_left.x as i64 + text_area.size.width as i64
                <= i32::MAX as i64 && text_area.top_left.y as i64 + text_area.size.height as i64
                <= i32::MAX as i64;
            let fits_area = area.size.width <= i32::MAX as u32 && area.size.height
                <= i32::MAX as u32 && x + area.size.width as i64 <= i32::MAX as i64 && y
                + area.size.height as i64 <= i32::MAX as i64;
            i32::MIN as i64 <= x && x <= i32::MAX as i64 && i32::MIN as i64 <= y && y
                <= i32::MAX as i64 && fits_text && fits_area
        },
        _ => true,
    }
}

/// Returns the area that the cursor covers in a text area, given the offset of the top of the text
/// from the top of a line in the font, and the offset of the underline from there; it never
/// reaches outside of the text area.
pub fn cursor_clip_area(
    text_area: Rectangle,
    extent: Extent,
    baseline_top: i32,
    underline_offset: i32,
) -> (r: Rectangle)
    requires
        cursor_clip_fits(text_area, extent),
    ensures
        r == cursor_clip_of(text_area, extent, baseline_top, underline_offset),
        text_area.size.height <= i32::MAX ==> forall|px: int, py: int| #[trigger]
            r.contains(px, py) ==> text_area.contains(px, py),
        extent matches Extent::Custom(area) ==> forall|px: int, py: int| #[trigger]
            r.contains(px, py) == (text_area.contains(px, py) && placed_at(
                area,
                text_area,
            ).contains(px, py)),
{
    match extent {
        Extent::FullBlock => text_area,
        Extent::VerticalBar { width } => {
            let width = min_u32(text_area.size.width, width);
            resized_width(text_area, width, AnchorX::Left)
        },
        Extent::Underline { height } => {
            let top = sat_sub_i32(baseline_top, underline_offset);
            let top = sat_add_i32(top, text_area.top_left.y);
            let bottom = sat_add_unsigned_i32(top, height);
            let r = text_area.y_reduce(top, bottom);
            proof {
                if text_area.size.height <= i32::MAX {
                    assert forall|px: int, py: int| #[trigger]
                        r.contains(px, py) implies text_area.contains(px, py) by {
                        super::rect::y_reduce_keeps_rows(text_area, top, bottom, px, py);
                    }
                }
            }
            r
        },
        Extent::Custom(area) => {
            let placed = translate(area, text_area.top_left);
            let r = intersection(text_area, placed);
            proof {
                assert forall|px: int, py: int| #[trigger]
                    r.contains(px, py) == (text_area.contains(px, py) && placed.contains(
                        px,
                        py,
                    )) by {
                    crate::geometry::intersection_holds_common_pixels(text_area, placed, px, py);
                }
            }
            r
        },
    }
}


/// Hidden text is drawn by filling its area, whatever its symbol and its other modifiers; a cursor
/// with its own symbol is drawn neither hidden nor with the bold font, whatever the modifiers of
/// the cell under it.
pub proof fn hidden_text_fills_its_area(modifier: Modifier, text: Seq<char>, has_bold_font: bool)
    ensures
        has(modifier, HIDDEN) ==> mode_of(modifier, text, has_bold_font) == CellMode::Hidden,
        ({
            let kept = Modifier { bits: modifier.bits & !(HIDDEN | BOLD) };
            let m = mode_of(kept, text, has_bold_font);
            m != CellMode::Hidden && m != CellMode::BoldGlyphs
        }),
{
    let b = modifier.bits;
    assert(b & !(HIDDEN | BOLD) & HIDDEN == 0 && b & !(HIDDEN | BOLD) & BOLD == 0) by (bit_vector);
}


/// When the conversion of the color type follows its specification, a color has a single shade.
proof fn shade_is_unique<T: From<Rgb888>>(
    c: Color,
    palette: Palette<T>,
    reset: Option<T>,
    fallback: Shade<T>,
    s1: Shade<T>,
    s2: Shade<T>,
)
    requires
        <T as FromSpec<Rgb888>>::obeys_from_spec(),
        shade_of(c, palette, reset, fallback, s1),
        shade_of(c, palette, reset, fallback, s2),
    ensures
        s1 == s2,
{
    if !maps_to(c, palette, None) {
        let t1 = s1->Color_0;
        let t2 = s2->Color_0;
        maps_to_one_color(c, palette, Some(t1), Some(t2));
    }
}

/// When the conversion of the color type follows its specification, a cell has a single underline.
proof fn underline_is_unique<T: From<Rgb888>>(
    c: Color,
    palette: Palette<T>,
    underlined: bool,
    d1: Decoration<T>,
    d2: Decoration<T>,
)
    requires
        <T as FromSpec<Rgb888>>::obeys_from_spec(),
        underline_of(c, palette, underlined, d1),
        underline_of(c, palette, underlined, d2),
    ensures
        d1 == d2,
{
    if underlined && !maps_to(c, palette, None) {
        let t1 = d1->Custom_0;
        let t2 = d2->Custom_0;
        maps_to_one_color(c, palette, Some(t1), Some(t2));
    }
}

/// The modifiers that do not change how a cell is drawn: italic (drawn with the regular font),
/// slow and rapid blinking (animated by the blinking layer, drawn solid here), and bold when there
/// is no bold font.
pub open spec fn ignored_bits(has_bold_font: bool) -> u16 {
    if has_bold_font {
        ITALIC | SLOW_BLINK | RAPID_BLINK
    } else {
        ITALIC | SLOW_BLINK | RAPID_BLINK | BOLD
    }
}

/// Cells that differ only in modifiers that do not change how a cell is drawn (italic, blinking,
/// and bold without a bold font) get the same style, when the conversion of the color type
/// follows its specification, and are drawn in the same mode.
pub proof fn drawing_ignores_italic_and_blinking<T: From<Rgb888>>(
    c1: Cell,
    c2: Cell,
    palette: Palette<T>,
    fg_reset: Option<T>,
    bg_reset: Option<T>,
    has_bold_font: bool,
    s1: CellStyle<T>,
    s2: CellStyle<T>,
)
    requires
        <T as FromSpec<Rgb888>>::obeys_from_spec(),
        c1.symbol@ == c2.symbol@,
        c1.fg == c2.fg,
        c1.bg == c2.bg,
        c1.underline_color == c2.underline_color,
        c1.modifier.bits & !ignored_bits(has_bold_font) == c2.modifier.bits & !ignored_bits(
            has_bold_font,
        ),
        is_cell_style(c1, palette, fg_reset, bg_reset, s1),
        is_cell_style(c2, palette, fg_reset, bg_reset, s2),
    ensures
        s1 == s2,
        mode_of(c1.modifier, c1.symbol@, has_bold_font) == mode_of(
            c2.modifier,
            c2.symbol@,
            has_bold_font,
        ),
{
    let a = c1.modifier.bits;
    let b = c2.modifier.bits;
    if has_bold_font {
        assert(a & !(ITALIC | SLOW_BLINK | RAPID_BLINK) == b & !(ITALIC | SLOW_BLINK | RAPID_BLINK)
            ==> (a & DIM != 0) == (b & DIM != 0) && (a & REVERSED != 0) == (b & REVERSED != 0) && (a
            & UNDERLINED != 0) == (b & UNDERLINED != 0) && (a & CROSSED_OUT != 0) == (b
            & CROSSED_OUT != 0) && (a & HIDDEN != 0) == (b & HIDDEN != 0) && (a & BOLD != 0) == (b
            & BOLD != 0)) by (bit_vector);
    } else {
        assert(a & !(ITALIC | SLOW_BLINK | RAPID_BLINK | BOLD) == b & !(ITALIC | SLOW_BLINK
            | RAPID_BLINK | BOLD) ==> (a & DIM != 0) == (b & DIM != 0) && (a & REVERSED != 0) == (b
            & REVERSED != 0) && (a & UNDERLINED != 0) == (b & UNDERLINED != 0) && (a & CROSSED_OUT
            != 0) == (b & CROSSED_OUT != 0) && (a & HIDDEN != 0) == (b & HIDDEN != 0))
            by (bit_vector);
    }
    shade_is_unique(c1.fg, palette, fg_reset, Shade::Light, s1.text, s2.text);
    shade_is_unique(c1.bg, palette, bg_reset, Shade::Dark, s1.background, s2.background);
    underline_is_unique(
        c1.underline_color,
        palette,
        has(c1.modifier, UNDERLINED),
        s1.underline,
        s2.underline,
    );
}

/// Drawing content hidden is drawing it with the hidden modifier added: the cell gets the same
/// style, when the conversion of the color type follows its specification, and the hidden mode,
/// which fills its area with the background color, or the foreground color when reversed.
pub proof fn hidden_drawing_adds_the_hidden_modifier<T: From<Rgb888>>(
    c: Cell,
    palette: Palette<T>,
    fg_reset: Option<T>,
    bg_reset: Option<T>,
    has_bold_font: bool,
    s1: CellStyle<T>,
    s2: CellStyle<T>,
)
    requires
        <T as FromSpec<Rgb888>>::obeys_from_spec(),
        is_cell_style(c, palette, fg_reset, bg_reset, s1),
        is_cell_style(
            Cell { modifier: Modifier { bits: c.modifier.bits | HIDDEN }, ..c },
            palette,
            fg_reset,
            bg_reset,
            s2,
        ),
    ensures
        s1 == s2,
        mode_of(Modifier { bits: c.modifier.bits | HIDDEN }, c.symbol@, has_bold_font)
            == CellMode::Hidden,
{
    let a = c.modifier.bits;
    assert((a | HIDDEN) & DIM == a & DIM && (a | HIDDEN) & REVERSED == a & REVERSED && (a | HIDDEN)
        & UNDERLINED == a & UNDERLINED && (a | HIDDEN) & CROSSED_OUT == a & CROSSED_OUT && (a
        | HIDDEN) & HIDDEN != 0) by (bit_vector);
    shade_is_unique(c.fg, palette, fg_reset, Shade::Light, s1.text, s2.text);
    shade_is_unique(c.bg, palette, bg_reset, Shade::Dark, s1.background, s2.background);
    underline_is_unique(
        c.underline_color,
        palette,
        has(c.modifier, UNDERLINED),
        s1.underline,
        s2.underline,
    );
}

/// The cursor is never dimmed: whatever the cell under it, its colors, its symbol, the palette and
/// the reset colors, its style has no dimming, and it is inverted only with the inverted reset
/// colors.
pub proof fn cursor_is_never_dimmed<T: From<Rgb888>>(
    cell: Cell,
    colors: Colors,
    symbol: Symbol,
    palette: Palette<T>,
    fg_reset: Option<T>,
    bg_reset: Option<T>,
    s: CellStyle<T>,
)
    requires
        is_cursor_style(cell, colors, symbol, palette, fg_reset, bg_reset, s),
    ensures
        !s.dim,
        s.inverted == (colors is InvertedReset),
{
}

/// A cursor with its own symbol is drawn alike over cells that differ in anything but their
/// symbol's width and being reversed: it gets the same style, when the conversion of the color
/// type follows its specification, the same text, and the same mode.
pub proof fn custom_cursor_respects_only_reversal<T: From<Rgb888>>(
    c1: Cell,
    c2: Cell,
    colors: Colors,
    symbol: Symbol,
    palette: Palette<T>,
    fg_reset: Option<T>,
    bg_reset: Option<T>,
    has_bold_font: bool,
    s1: CellStyle<T>,
    s2: CellStyle<T>,
)
    requires
        <T as FromSpec<Rgb888>>::obeys_from_spec(),
        symbol is Custom,
        has(c1.modifier, REVERSED) == has(c2.modifier, REVERSED),
        is_cursor_style(c1, colors, symbol, palette, fg_reset, bg_reset, s1),
        is_cursor_style(c2, colors, symbol, palette, fg_reset, bg_reset, s2),
    ensures
        s1 == s2,
        cursor_text_of(c1, symbol) == cursor_text_of(c2, symbol),
        mode_of(
            Modifier { bits: c1.modifier.bits & !(HIDDEN | BOLD) },
            cursor_text_of(c1, symbol),
            has_bold_font,
        ) == mode_of(
            Modifier { bits: c2.modifier.bits & !(HIDDEN | BOLD) },
            cursor_text_of(c2, symbol),
            has_bold_font,
        ),
{
    let a = c1.modifier.bits;
    let b = c2.modifier.bits;
    assert(a & !(HIDDEN | BOLD) & HIDDEN == 0 && a & !(HIDDEN | BOLD) & BOLD == 0 && b & !(HIDDEN
        | BOLD) & HIDDEN == 0 && b & !(HIDDEN | BOLD) & BOLD == 0) by (bit_vector);
    match colors {
        Colors::Custom { fg, bg } => {
            shade_is_unique(fg, palette, fg_reset, Shade::Light, s1.text, s2.text);
            shade_is_unique(bg, palette, bg_reset, Shade::Dark, s1.background, s2.background);
        },
        _ => {},
    }
}

} // verus!
