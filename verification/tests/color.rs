//! Color lookup in palettes, and building 256-color lookup tables.

use dumo::builder::PaletteBuilder;
use dumo::color::{MapWith, Palette};
use dumo::style::Color;
use embedded_graphics::pixelcolor::Rgb888;

fn gray_ramp() -> [Rgb888; 256] {
    let mut colors = [Rgb888::new(0, 0, 0); 256];
    for (i, c) in colors.iter_mut().enumerate() {
        *c = Rgb888::new(i as u8, i as u8, i as u8);
    }
    colors
}

fn first_16() -> [Rgb888; 16] {
    let mut colors = [Rgb888::new(0, 0, 0); 16];
    for (i, c) in colors.iter_mut().enumerate() {
        *c = Rgb888::new(i as u8, 0, 0);
    }
    colors
}

#[test]
fn dark_gray_maps_to_entry_8() {
    let colors = gray_ramp();
    assert_eq!(Color::DarkGray.map_with(Palette::Ansi256(&colors)), Some(colors[8]));
    let colors = first_16();
    assert_eq!(Color::DarkGray.map_with(Palette::Ansi16(&colors)), Some(colors[8]));
}

#[test]
fn reset_maps_to_nothing() {
    let colors = gray_ramp();
    assert_eq!(Color::Reset.map_with(Palette::Ansi256(&colors)), None);
    let colors = first_16();
    assert_eq!(Color::Reset.map_with(Palette::Ansi16(&colors)), None);
}

#[test]
fn reset_palette_discards_all_colors() {
    let palette: Palette<Rgb888> = Palette::Reset;
    assert_eq!(Color::Red.map_with(palette), None);
    assert_eq!(Color::Rgb(1, 2, 3).map_with(palette), None);
    assert_eq!(Color::Indexed(200).map_with(palette), None);
}

#[test]
fn indexed_maps_to_its_entry_in_256_colors() {
    let colors = gray_ramp();
    assert_eq!(Color::Indexed(200).map_with(Palette::Ansi256(&colors)), Some(colors[200]));
    assert_eq!(Color::Indexed(3).map_with(Palette::Ansi256(&colors)), Some(colors[3]));
}

#[test]
fn rgb_converts_in_256_colors() {
    let colors = gray_ramp();
    let result = Color::Rgb(12, 34, 56).map_with(Palette::Ansi256(&colors));
    assert_eq!(result, Some(Rgb888::new(12, 34, 56)));
}

#[test]
fn rgb_folds_into_16_colors() {
    let colors = first_16();
    let p = Palette::Ansi16(&colors);
    assert_eq!(Color::Rgb(0, 0, 0).map_with(p), Some(colors[0]));
    assert_eq!(Color::Rgb(100, 0, 0).map_with(p), Some(colors[1]));
    assert_eq!(Color::Rgb(0, 100, 100).map_with(p), Some(colors[6]));
    assert_eq!(Color::Rgb(100, 100, 100).map_with(p), Some(colors[8]));
    assert_eq!(Color::Rgb(200, 0, 0).map_with(p), Some(colors[9]));
    assert_eq!(Color::Rgb(200, 200, 0).map_with(p), Some(colors[11]));
    assert_eq!(Color::Rgb(200, 200, 200).map_with(p), Some(colors[7]));
    assert_eq!(Color::Rgb(220, 220, 200).map_with(p), Some(colors[15]));
    assert_eq!(Color::Rgb(220, 200, 200).map_with(p), Some(colors[7]));
    assert_eq!(Color::Rgb(255, 255, 255).map_with(p), Some(colors[15]));
}

#[test]
fn indexed_folds_into_16_colors() {
    let colors = first_16();
    let p = Palette::Ansi16(&colors);
    assert_eq!(Color::Indexed(5).map_with(p), Some(colors[5]));
    assert_eq!(Color::Indexed(16).map_with(p), Some(colors[0]));
    assert_eq!(Color::Indexed(21).map_with(p), Some(colors[12]));
    assert_eq!(Color::Indexed(40).map_with(p), Some(colors[10]));
    assert_eq!(Color::Indexed(46).map_with(p), Some(colors[10]));
    assert_eq!(Color::Indexed(196).map_with(p), Some(colors[9]));
    assert_eq!(Color::Indexed(226).map_with(p), Some(colors[11]));
    assert_eq!(Color::Indexed(230).map_with(p), Some(colors[15]));
    assert_eq!(Color::Indexed(88).map_with(p), Some(colors[1]));
    assert_eq!(Color::Indexed(231).map_with(p), Some(colors[15]));
    assert_eq!(Color::Indexed(235).map_with(p), Some(colors[0]));
    assert_eq!(Color::Indexed(245).map_with(p), Some(colors[8]));
    assert_eq!(Color::Indexed(250).map_with(p), Some(colors[7]));
    assert_eq!(Color::Indexed(255).map_with(p), Some(colors[15]));
}

#[test]
fn named_colors_agree_with_first_16_indices() {
    let colors = gray_ramp();
    let named = [
        Color::Black,
        Color::Red,
        Color::Green,
        Color::Yellow,
        Color::Blue,
        Color::Magenta,
        Color::Cyan,
        Color::Gray,
        Color::DarkGray,
        Color::LightRed,
        Color::LightGreen,
        Color::LightYellow,
        Color::LightBlue,
        Color::LightMagenta,
        Color::LightCyan,
        Color::White,
    ];
    for (i, c) in named.iter().enumerate() {
        let p = Palette::Ansi256(&colors);
        assert_eq!(c.map_with(p), Color::Indexed(i as u8).map_with(p));
        assert_eq!(c.map_with(p), Some(colors[i]));
    }
}

fn parts() -> ([u8; 16], [u8; 216], [u8; 24]) {
    let mut head = [0u8; 16];
    let mut body = [0u8; 216];
    let mut tail = [0u8; 24];
    for i in 0..16 {
        head[i] = i as u8;
    }
    for i in 0..216 {
        body[i] = (16 + i) as u8;
    }
    for i in 0..24 {
        tail[i] = (232 + i) as u8;
    }
    (head, body, tail)
}

fn expected() -> [u8; 256] {
    let mut all = [0u8; 256];
    for i in 0..256 {
        all[i] = i as u8;
    }
    all
}

#[test]
fn builder_head_body_tail() {
    let (h, b, t) = parts();
    assert_eq!(PaletteBuilder::new().head(&h).body(&b).tail(&t).build(), expected());
}

#[test]
fn builder_in_every_order() {
    let (h, b, t) = parts();
    let all = expected();
    assert_eq!(PaletteBuilder::new().head(&h).tail(&t).body(&b).build(), all);
    assert_eq!(PaletteBuilder::new().body(&b).head(&h).tail(&t).build(), all);
    assert_eq!(PaletteBuilder::new().body(&b).tail(&t).head(&h).build(), all);
    assert_eq!(PaletteBuilder::new().tail(&t).head(&h).body(&b).build(), all);
    assert_eq!(PaletteBuilder::new().tail(&t).body(&b).head(&h).build(), all);
}

#[test]
fn builder_default_is_empty() {
    let builder: PaletteBuilder<u8, 0> = PaletteBuilder::default();
    assert_eq!(builder.0.len(), 0);
    let (h, _, _) = parts();
    assert_eq!(builder.head(&h).0, h);
}
