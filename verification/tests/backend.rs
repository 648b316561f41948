//! Measuring the text area, placing cells, moving the cursor, and clearing regions.

use dumo::backend::{cell_top_left, text_area, text_area_size, window_size, State};
use dumo::error::{Error, MeasureError, SetCursorError};
use dumo::geometry::{Point, Rectangle, Size};
use dumo::layout::{self, ClearType, Position};

#[test]
fn text_area_size_rounds_up() {
    let size = text_area_size(Size::new(100, 50), Size::new(8, 16)).unwrap();
    assert_eq!(size, layout::Size::new(13, 4));
    let size = text_area_size(Size::new(96, 48), Size::new(8, 16)).unwrap();
    assert_eq!(size, layout::Size::new(12, 3));
}

#[test]
fn text_area_size_of_empty_cells_is_invalid() {
    assert!(matches!(
        text_area_size(Size::new(100, 50), Size::new(0, 16)),
        Err(MeasureError::InvalidSize)
    ));
    assert!(matches!(
        text_area_size(Size::new(100, 50), Size::new(8, 0)),
        Err(MeasureError::InvalidSize)
    ));
}

#[test]
fn text_area_size_beyond_u16_fails_to_convert() {
    assert!(matches!(
        text_area_size(Size::new(70000, 50), Size::new(1, 1)),
        Err(MeasureError::TryFromSize(_))
    ));
}

#[test]
fn window_size_rounds_up_to_whole_cells() {
    let w = window_size(Size::new(100, 50), Size::new(8, 16)).unwrap();
    assert_eq!(w.columns_rows, layout::Size::new(13, 4));
    assert_eq!(w.pixels, layout::Size::new(104, 64));
}

#[test]
fn window_size_errors() {
    assert!(matches!(
        window_size(Size::new(100, 50), Size::new(0, 16)),
        Err(MeasureError::InvalidSize)
    ));
    assert!(matches!(
        window_size(Size::new(u32::MAX, 50), Size::new(2, 16)),
        Err(MeasureError::InvalidSize)
    ));
    assert!(matches!(
        window_size(Size::new(65536, 50), Size::new(2, 16)),
        Err(MeasureError::TryFromSize(_))
    ));
}

#[test]
fn cell_top_left_multiplies_by_the_cell_size() {
    let p = cell_top_left(Size::new(8, 16), 3, 2).unwrap();
    assert_eq!(p, Point::new(24, 32));
    let p = cell_top_left(Size::new(u32::MAX / 2, 1), 2, 0).unwrap();
    assert_eq!(p, Point::new(i32::MAX, 0));
    assert!(matches!(
        cell_top_left(Size::new(u32::MAX, 1), 2, 0),
        Err(MeasureError::InvalidSize)
    ));
}

#[test]
fn text_area_spans_the_columns_of_the_symbol() {
    let a = text_area(Size::new(8, 16), 3, 2, 2, 15).unwrap();
    assert_eq!(a, Rectangle::new(Point::new(24, 32), Size::new(16, 15)));
    assert!(matches!(
        text_area(Size::new(u32::MAX / 2, 16), 0, 0, 3, 15),
        Err(MeasureError::InvalidSize)
    ));
}

#[test]
fn cursor_moves_only_inside_the_text_area() {
    let mut state = State::new();
    assert_eq!(state.get_cursor_position(), Position::new(0, 0));
    let r: Result<(), Error<()>> =
        state.set_cursor_position(Position::new(12, 3), Size::new(100, 50), Size::new(8, 16));
    assert!(r.is_ok());
    assert_eq!(state.get_cursor_position(), Position::new(12, 3));
    let r: Result<(), Error<()>> =
        state.set_cursor_position(Position::new(13, 3), Size::new(100, 50), Size::new(8, 16));
    assert!(matches!(r, Err(Error::SetCursor(SetCursorError::InvalidPosition))));
    assert_eq!(state.get_cursor_position(), Position::new(12, 3));
    let r: Result<(), Error<()>> =
        state.set_cursor_position(Position::new(0, 0), Size::new(100, 50), Size::new(0, 16));
    assert!(matches!(r, Err(Error::Measure(MeasureError::InvalidSize))));
    let r: Result<(), Error<()>> =
        state.set_cursor_position(Position::new(0, 0), Size::new(70000, 50), Size::new(1, 16));
    assert!(matches!(r, Err(Error::Measure(MeasureError::TryFromSize(_)))));
}

#[test]
fn cursor_coverage_defaults_to_the_cell_of_the_cursor() {
    let mut state = State::new();
    let _: Result<(), Error<()>> =
        state.set_cursor_position(Position::new(2, 1), Size::new(100, 50), Size::new(8, 16));
    let c = state.cursor_coverage(Size::new(8, 16)).unwrap();
    assert_eq!(c, Rectangle::new(Point::new(16, 16), Size::new(8, 16)));
    let area = Rectangle::new(Point::new(16, 16), Size::new(16, 15));
    state.cover_cursor(area);
    assert_eq!(state.cursor_coverage(Size::new(8, 16)).unwrap(), area);
    state.uncover_cursor();
    assert_eq!(state.cursor_coverage(Size::new(8, 16)).unwrap(), c);
}

fn clear(clear_type: ClearType) -> Vec<Rectangle> {
    let mut state = State::new();
    let _: Result<(), Error<()>> =
        state.set_cursor_position(Position::new(2, 1), Size::new(100, 48), Size::new(8, 16));
    state
        .clear_areas(Rectangle::new(Point::new(0, 0), Size::new(100, 48)), Size::new(8, 16), clear_type)
        .unwrap()
}

#[test]
fn clear_all_fills_the_target() {
    assert_eq!(
        clear(ClearType::All),
        vec![Rectangle::new(Point::new(0, 0), Size::new(100, 48))]
    );
}

#[test]
fn clear_after_cursor() {
    assert_eq!(
        clear(ClearType::AfterCursor),
        vec![
            Rectangle::new(Point::new(16, 16), Size::new(8, 16)),
            Rectangle::new(Point::new(24, 16), Size::new(76, 16)),
            Rectangle::new(Point::new(0, 32), Size::new(100, 16)),
        ]
    );
}

#[test]
fn clear_before_cursor() {
    assert_eq!(
        clear(ClearType::BeforeCursor),
        vec![
            Rectangle::new(Point::new(16, 16), Size::new(8, 16)),
            Rectangle::new(Point::new(0, 16), Size::new(16, 16)),
            Rectangle::new(Point::new(0, 0), Size::new(100, 16)),
        ]
    );
}

#[test]
fn clear_current_line() {
    assert_eq!(
        clear(ClearType::CurrentLine),
        vec![Rectangle::new(Point::new(0, 16), Size::new(100, 16))]
    );
}

#[test]
fn clear_until_new_line() {
    assert_eq!(
        clear(ClearType::UntilNewLine),
        vec![
            Rectangle::new(Point::new(16, 16), Size::new(8, 16)),
            Rectangle::new(Point::new(24, 16), Size::new(76, 16)),
        ]
    );
}

#[test]
fn clear_with_invalid_cell_size() {
    let state = State::new();
    let mut moved = State::new();
    let _: Result<(), Error<()>> =
        moved.set_cursor_position(Position::new(2, 0), Size::new(100, 48), Size::new(8, 16));
    assert!(state
        .clear_areas(Rectangle::new(Point::new(0, 0), Size::new(100, 48)), Size::new(0, 0), ClearType::All)
        .is_ok());
    assert!(matches!(
        moved.clear_areas(
            Rectangle::new(Point::new(0, 0), Size::new(100, 48)),
            Size::new(u32::MAX, 16),
            ClearType::All
        ),
        Err(MeasureError::InvalidSize)
    ));
}
