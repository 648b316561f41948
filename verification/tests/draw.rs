//! The colors, decorations, and areas chosen for drawing cells and the cursor.

use dumo::backend::draw::{
    bold_fill_areas, cell_mode, cell_style, check_crop, check_cursor_clip, cursor_clip_area,
    cursor_mode, cursor_style, cursor_text, glyph_layout, is_blank_text, plain_fill_area, CellMode,
    Decoration, Shade,
};
use dumo::buffer::Cell;
use dumo::color::Palette;
use dumo::cursor::{Colors, Extent, Symbol};
use dumo::geometry::{AnchorX, Point, Rectangle, Size};
use dumo::style::{Color, Modifier, BOLD, CROSSED_OUT, DIM, HIDDEN, REVERSED, UNDERLINED};
use embedded_graphics::pixelcolor::Rgb888;

fn cell(symbol: &str, fg: Color, bg: Color, bits: u16) -> Cell {
    Cell {
        symbol: symbol.to_string(),
        fg,
        bg,
        underline_color: Color::Reset,
        modifier: Modifier { bits },
    }
}

fn palette_colors() -> [Rgb888; 16] {
    let mut colors = [Rgb888::new(0, 0, 0); 16];
    for (i, c) in colors.iter_mut().enumerate() {
        *c = Rgb888::new(i as u8 * 10, 0, 0);
    }
    colors
}

#[test]
fn cell_style_looks_up_colors_and_falls_back() {
    let colors = palette_colors();
    let p = Palette::Ansi16(&colors);
    let s = cell_style(&cell("a", Color::Red, Color::Reset, 0), p, None, None);
    assert!(matches!(s.text, Shade::Color(c) if c == colors[1]));
    assert!(matches!(s.background, Shade::Dark));
    assert!(!s.inverted && !s.dim && !s.reversed);
    assert!(matches!(s.underline, Decoration::Off));
    assert!(matches!(s.strikethrough, Decoration::Off));

    let reset = Rgb888::new(1, 2, 3);
    let s = cell_style(&cell("a", Color::Reset, Color::Reset, 0), p, Some(reset), Some(reset));
    assert!(matches!(s.text, Shade::Color(c) if c == reset));
    assert!(matches!(s.background, Shade::Color(c) if c == reset));
    let s = cell_style(&cell("a", Color::Reset, Color::Reset, 0), p, None, None);
    assert!(matches!(s.text, Shade::Light));
}

#[test]
fn cell_style_follows_the_modifiers() {
    let colors = palette_colors();
    let p = Palette::Ansi16(&colors);
    let mut c = cell("a", Color::Red, Color::Blue, DIM | REVERSED | UNDERLINED | CROSSED_OUT);
    let s = cell_style(&c, p, None, None);
    assert!(s.dim && s.reversed);
    assert!(matches!(s.underline, Decoration::TextColor));
    assert!(matches!(s.strikethrough, Decoration::TextColor));
    c.underline_color = Color::Green;
    let s = cell_style(&c, p, None, None);
    assert!(matches!(s.underline, Decoration::Custom(u) if u == colors[2]));
}

#[test]
fn cursor_style_by_colors() {
    let colors = palette_colors();
    let p = Palette::Ansi16(&colors);
    let fg = Rgb888::new(200, 200, 200);
    let c = cell("a", Color::Red, Color::Blue, UNDERLINED | REVERSED);
    let s = cursor_style(&c, Colors::ReversedReset, Symbol::UnderCursor, p, Some(fg), None);
    assert!(matches!(s.text, Shade::Dark));
    assert!(matches!(s.background, Shade::Color(x) if x == fg));
    assert!(!s.inverted && s.reversed && !s.dim);
    assert!(matches!(s.underline, Decoration::TextColor));
    let s = cursor_style(&c, Colors::InvertedReset, Symbol::Custom("_"), p, Some(fg), None);
    assert!(matches!(s.text, Shade::Color(x) if x == fg));
    assert!(matches!(s.background, Shade::Dark));
    assert!(s.inverted);
    assert!(matches!(s.underline, Decoration::Off));
    let custom = Colors::Custom { fg: Color::Yellow, bg: Color::Reset };
    let s = cursor_style(&c, custom, Symbol::UnderCursor, p, None, None);
    assert!(matches!(s.text, Shade::Color(x) if x == colors[3]));
    assert!(matches!(s.background, Shade::Dark));
}

#[test]
fn blank_texts() {
    assert!(is_blank_text(" "));
    assert!(is_blank_text(""));
    assert!(is_blank_text(" \t\n\r\x0C"));
    assert!(!is_blank_text(" a"));
    assert!(!is_blank_text("\u{00A0}"));
}

#[test]
fn cell_modes() {
    assert_eq!(cell_mode(&cell("a", Color::Reset, Color::Reset, HIDDEN), true), CellMode::Hidden);
    assert_eq!(cell_mode(&cell(" ", Color::Reset, Color::Reset, BOLD), true), CellMode::Whitespace);
    assert_eq!(cell_mode(&cell("a", Color::Reset, Color::Reset, BOLD), true), CellMode::BoldGlyphs);
    assert_eq!(cell_mode(&cell("a", Color::Reset, Color::Reset, BOLD), false), CellMode::Glyphs);
    assert_eq!(cell_mode(&cell("a", Color::Reset, Color::Reset, 0), true), CellMode::Glyphs);
}

#[test]
fn cursor_modes() {
    let hidden_bold = cell("a", Color::Reset, Color::Reset, HIDDEN | BOLD);
    assert_eq!(cursor_mode(&hidden_bold, Symbol::UnderCursor, true), CellMode::Hidden);
    assert_eq!(cursor_mode(&hidden_bold, Symbol::Custom("_"), true), CellMode::Glyphs);
    assert_eq!(cursor_mode(&hidden_bold, Symbol::Custom(" "), true), CellMode::Whitespace);
    let bold = cell("a", Color::Reset, Color::Reset, BOLD);
    assert_eq!(cursor_mode(&bold, Symbol::UnderCursor, true), CellMode::BoldGlyphs);
    assert_eq!(cursor_text(&bold, Symbol::UnderCursor), "a");
    assert_eq!(cursor_text(&bold, Symbol::Custom("_")), "_");
}

#[test]
fn glyph_layout_aligns_by_the_anchor() {
    let area = Rectangle::new(Point::new(16, 32), Size::new(16, 15));
    assert!(check_crop(area, 26, AnchorX::Left));
    let g = glyph_layout(area, 26, AnchorX::Left);
    assert_eq!(g.inherent_width, 10);
    assert_eq!(g.crop_area, Rectangle::new(Point::new(16, 32), Size::new(10, 15)));
    assert_eq!(g.padding, 6);
    let g = glyph_layout(area, 26, AnchorX::Right);
    assert_eq!(g.crop_area, Rectangle::new(Point::new(22, 32), Size::new(10, 15)));
    let g = glyph_layout(area, 26, AnchorX::Center);
    assert_eq!(g.crop_area, Rectangle::new(Point::new(19, 32), Size::new(10, 15)));
    let g = glyph_layout(area, 40, AnchorX::Right);
    assert_eq!(g.inherent_width, 24);
    assert_eq!(g.crop_area, Rectangle::new(Point::new(8, 32), Size::new(24, 15)));
    assert_eq!(g.padding, 0);
    let g = glyph_layout(area, 10, AnchorX::Left);
    assert_eq!(g.inherent_width, 0);
    assert_eq!(g.padding, 16);
}

#[test]
fn crop_that_leaves_the_coordinate_range_is_refused() {
    let area = Rectangle::new(Point::new(i32::MAX - 4, 0), Size::new(u32::MAX, 15));
    assert!(!check_crop(area, i32::MAX, AnchorX::Right));
    assert!(check_crop(area, i32::MAX, AnchorX::Left));
}

#[test]
fn bold_fills_surround_the_glyph_images() {
    let clip = Rectangle::new(Point::new(0, 0), Size::new(16, 16));
    let bbox = Rectangle::new(Point::new(2, 1), Size::new(9, 12));
    let v = bold_fill_areas(clip, bbox, 11, 3);
    assert_eq!(
        v,
        vec![
            Rectangle::new(Point::new(0, 0), Size::new(2, 13)),
            Rectangle::new(Point::new(14, 0), Size::new(2, 13)),
            Rectangle::new(Point::new(0, 13), Size::new(16, 3)),
        ]
    );
}

#[test]
fn cursor_clip_areas() {
    let area = Rectangle::new(Point::new(16, 32), Size::new(16, 15));
    assert_eq!(cursor_clip_area(area, Extent::FullBlock, 12, -1), area);
    assert_eq!(
        cursor_clip_area(area, Extent::VerticalBar { width: 2 }, 12, -1),
        Rectangle::new(Point::new(16, 32), Size::new(2, 15))
    );
    assert_eq!(
        cursor_clip_area(area, Extent::VerticalBar { width: 40 }, 12, -1),
        area
    );
    assert_eq!(
        cursor_clip_area(area, Extent::Underline { height: 2 }, 12, -1),
        Rectangle::new(Point::new(16, 45), Size::new(16, 2))
    );
    let custom = Extent::Custom(Rectangle::new(Point::new(4, 10), Size::new(20, 20)));
    assert!(check_cursor_clip(area, custom));
    assert_eq!(
        cursor_clip_area(area, custom, 12, -1),
        Rectangle::new(Point::new(20, 42), Size::new(12, 5))
    );
    let outside = Extent::Custom(Rectangle::new(Point::new(i32::MAX, 0), Size::new(1, 1)));
    assert!(!check_cursor_clip(area, outside));
}

#[test]
fn hidden_cells_fill_their_area_whatever_else() {
    for bits in [HIDDEN, HIDDEN | BOLD, HIDDEN | REVERSED | DIM] {
        assert_eq!(cell_mode(&cell("a", Color::Reset, Color::Reset, bits), true), CellMode::Hidden);
        assert_eq!(cell_mode(&cell(" ", Color::Reset, Color::Reset, bits), false), CellMode::Hidden);
    }
}

#[test]
fn plain_fill_is_left_of_the_glyphs() {
    let area = Rectangle::new(Point::new(16, 32), Size::new(16, 15));
    let g = glyph_layout(area, 26, AnchorX::Right);
    assert_eq!(plain_fill_area(area, &g), Rectangle::new(Point::new(16, 32), Size::new(6, 15)));
    let g = glyph_layout(area, 26, AnchorX::Left);
    assert_eq!(plain_fill_area(area, &g), Rectangle::new(Point::new(16, 32), Size::new(0, 15)));
}

#[test]
fn custom_cursor_outside_the_cell_covers_nothing() {
    let area = Rectangle::new(Point::new(16, 32), Size::new(16, 15));
    let far = Extent::Custom(Rectangle::new(Point::new(100, 0), Size::new(5, 5)));
    assert!(check_cursor_clip(area, far));
    assert_eq!(cursor_clip_area(area, far, 12, -1), Rectangle::new(Point::new(0, 0), Size::new(0, 0)));
}
