//! The draws that the cursor layer decides on after content has been drawn.

use dumo::blink::Blink;
use dumo::buffer::Cell;
use dumo::cursor::Cursor;
use dumo::layout::{ClearType, Position};
use dumo::style::{Color, Modifier, HIDDEN};
use dumo::wrapper::cursor::CursorWrapper;

fn cell(symbol: &str) -> Cell {
    Cell {
        symbol: symbol.to_string(),
        fg: Color::Reset,
        bg: Color::Reset,
        underline_color: Color::Reset,
        modifier: Modifier { bits: 0 },
    }
}

fn solid() -> CursorWrapper<'static, ()> {
    CursorWrapper::new((), Cursor::default())
}

#[test]
fn first_frame_draws_the_cursor_over_the_cell_under_it() {
    let mut w = solid();
    let at = Position::new(1, 0);
    let content = vec![(0, 0, cell("a")), (1, 0, cell("b")), (2, 0, cell("c"))];
    let under = w.cache_content(&content, false, at).unwrap();
    assert_eq!((under.0, under.1, under.2.symbol.as_str()), (1, 0, "b"));
    let draws = w.cursor_draws(at, Some(under), false);
    assert!(draws.restore.is_none());
    assert!(draws.with_cursor);
    let (x, y, c) = draws.cursor.unwrap();
    assert_eq!((x, y, c.symbol.as_str()), (1, 0, "b"));
}

#[test]
fn unchanged_frame_draws_no_cursor() {
    let mut w = solid();
    let at = Position::new(0, 0);
    let _ = w.cursor_draws(at, None, false);
    let draws = w.cursor_draws(at, None, false);
    assert!(draws.cursor.is_none());
    assert!(draws.restore.is_none());
}

#[test]
fn hidden_content_is_cached_as_hidden() {
    let mut w = solid();
    let at = Position::new(0, 0);
    let under = w.cache_content(&vec![(0, 0, cell("a"))], true, at).unwrap();
    assert_eq!(under.2.modifier.bits & HIDDEN, HIDDEN);
}

#[test]
fn hide_and_show_before_drawing_change_nothing() {
    let mut w = solid();
    let at = Position::new(0, 0);
    let _ = w.cursor_draws(at, None, false);
    w.hide_cursor();
    w.show_cursor();
    let draws = w.cursor_draws(at, None, false);
    assert!(draws.cursor.is_none());
    w.hide_cursor();
    let draws = w.cursor_draws(at, None, true);
    assert!(draws.cursor.is_none());
}

#[test]
fn leaving_a_cell_restores_it() {
    let mut w = solid();
    let _ = w.cache_content(&vec![(0, 0, cell("a")), (1, 0, cell("b"))], false, Position::new(0, 0));
    let _ = w.cursor_draws(Position::new(0, 0), None, false);
    w.set_cursor_position(Position::new(0, 0), Position::new(1, 0));
    let draws = w.cursor_draws(Position::new(1, 0), None, false);
    let (x, y, c) = draws.restore.unwrap();
    assert_eq!((x, y, c.symbol.as_str()), (0, 0, "a"));
    let (x, y, c) = draws.cursor.unwrap();
    assert_eq!((x, y, c.symbol.as_str()), (1, 0, "b"));
}

#[test]
fn moving_back_before_drawing_forgets_the_move() {
    let mut w = solid();
    let _ = w.cursor_draws(Position::new(0, 0), None, false);
    w.set_cursor_position(Position::new(0, 0), Position::new(3, 0));
    w.set_cursor_position(Position::new(3, 0), Position::new(0, 0));
    let draws = w.cursor_draws(Position::new(0, 0), None, false);
    assert!(draws.restore.is_none());
    assert!(draws.cursor.is_none());
}

#[test]
fn clearing_the_line_drops_its_cells() {
    let mut w = solid();
    let content = vec![(0, 0, cell("a")), (0, 1, cell("b")), (5, 1, cell("c"))];
    let _ = w.cache_content(&content, false, Position::new(0, 1));
    let under = w.clear_region(ClearType::CurrentLine, Position::new(0, 1)).unwrap();
    assert_eq!((under.0, under.1, under.2.symbol.as_str()), (0, 1, " "));
    let under = w.clear_region(ClearType::CurrentLine, Position::new(0, 0)).unwrap();
    assert_eq!(under.2.symbol.as_str(), " ");
}

#[test]
fn clearing_after_the_cursor_keeps_what_comes_before() {
    let mut w = solid();
    let content = vec![(0, 0, cell("a")), (3, 0, cell("b")), (0, 1, cell("c"))];
    let _ = w.cache_content(&content, false, Position::new(3, 0));
    let _ = w.clear_region(ClearType::AfterCursor, Position::new(3, 0));
    let _ = w.set_cursor_position(Position::new(3, 0), Position::new(0, 0));
    let draws = w.cursor_draws(Position::new(0, 0), None, false);
    let (_, _, c) = draws.cursor.unwrap();
    assert_eq!(c.symbol.as_str(), "a");
    let (_, _, c) = draws.restore.unwrap();
    assert_eq!(c.symbol.as_str(), " ");
}

#[test]
fn clearing_everything_leaves_an_empty_cell_under_the_cursor() {
    let mut w = solid();
    let _ = w.cache_content(&vec![(0, 0, cell("a"))], false, Position::new(0, 0));
    let (x, y, c) = w.clear_cache(Position::new(0, 0)).unwrap();
    assert_eq!((x, y, c.symbol.as_str()), (0, 0, " "));
    w.hide_cursor();
    assert!(w.clear_cache(Position::new(0, 0)).is_none());
}

#[test]
fn blinking_cursor_is_off_in_the_second_half() {
    let mut w = CursorWrapper::new((), Cursor::default().blink(Blink::Repeat(1, 1)));
    let at = Position::new(0, 0);
    let draws = w.cursor_draws(at, None, false);
    assert!(!draws.with_cursor);
    w.advance_blink_by(1);
    let draws = w.cursor_draws(at, None, false);
    assert!(draws.with_cursor);
    assert!(draws.cursor.is_some());
}
