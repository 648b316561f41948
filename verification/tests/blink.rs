//! Blink animation cycles, and advancing the cursor animation to a blinked state.

use dumo::blink::{Blink, Blinked, ControlBlinking, ControlCursorBlinking};
use dumo::cursor::Cursor;
use dumo::error::AdvanceCursorBlinkingError::InvalidBlinked;
use dumo::wrapper::blink::BlinkWrapper;
use dumo::wrapper::cursor::CursorWrapper;

fn advance(blink: Blink, blinked: Blinked) -> Result<(), dumo::error::AdvanceCursorBlinkingError> {
    let mut wrapper = CursorWrapper::new((), Cursor::default().blink(blink));
    wrapper.advance_cursor_blink_to(blinked)
}

#[test]
fn advance_cursor_blink_with_delay_0_blink_0_to_blinked() {
    assert!(matches!(advance(Blink::Repeat(0, 0), Blinked(true)), Ok(())));
}

#[test]
fn advance_cursor_blink_with_delay_0_blink_0_to_not_blinked() {
    assert!(matches!(advance(Blink::Repeat(0, 0), Blinked(false)), Err(InvalidBlinked)));
}

#[test]
fn advance_cursor_blink_with_delay_0_blink_1_to_blinked() {
    assert!(matches!(advance(Blink::Repeat(0, 1), Blinked(true)), Ok(())));
}

#[test]
fn advance_cursor_blink_with_delay_0_blink_1_to_not_blinked() {
    assert!(matches!(advance(Blink::Repeat(0, 1), Blinked(false)), Err(InvalidBlinked)));
}

#[test]
fn advance_cursor_blink_with_delay_1_blink_0_to_blinked() {
    assert!(matches!(advance(Blink::Repeat(1, 0), Blinked(true)), Err(InvalidBlinked)));
}

#[test]
fn advance_cursor_blink_with_delay_1_blink_0_to_not_blinked() {
    assert!(matches!(advance(Blink::Repeat(1, 0), Blinked(false)), Ok(())));
}

#[test]
fn advance_cursor_blink_with_delay_1_blink_1_to_blinked() {
    assert!(matches!(advance(Blink::Repeat(1, 1), Blinked(true)), Ok(())));
}

#[test]
fn advance_cursor_blink_with_delay_1_blink_1_to_not_blinked() {
    assert!(matches!(advance(Blink::Repeat(1, 1), Blinked(false)), Ok(())));
}

#[test]
fn with_period_splits_odd_frame_into_the_delay() {
    let Blink::Repeat(delay, blink) = Blink::with_period(5);
    assert_eq!((delay, blink), (3, 2));
    let Blink::Repeat(delay, blink) = Blink::with_period(4);
    assert_eq!((delay, blink), (2, 2));
    let Blink::Repeat(delay, blink) = Blink::with_period(0);
    assert_eq!((delay, blink), (0, 0));
}

#[test]
fn get_follows_the_cycle() {
    let blink = Blink::with_period(5);
    let states: Vec<bool> = (0..10).map(|i| blink.get(i).0).collect();
    assert_eq!(
        states,
        vec![false, false, false, true, true, false, false, false, true, true]
    );
}

#[test]
fn get_with_zero_period_has_always_blinked() {
    let blink = Blink::Repeat(0, 0);
    assert_eq!(blink.get(0), Blinked(true));
    assert_eq!(blink.get(usize::MAX), Blinked(true));
}

#[test]
fn get_with_overflowing_period_compares_with_the_delay() {
    let blink = Blink::Repeat(usize::MAX, 1);
    assert_eq!(blink.get(usize::MAX - 1), Blinked(false));
    assert_eq!(blink.get(usize::MAX), Blinked(true));
}

#[test]
fn advancing_to_a_state_reaches_it() {
    let blink = Blink::Repeat(3, 2);
    let mut wrapper = CursorWrapper::new((), Cursor::default().blink(blink));
    wrapper.advance_blink_by(1);
    assert_eq!(wrapper.advance_cursor_blink_to(Blinked(true)), Ok(()));
    assert_eq!(wrapper.advance_cursor_blink_to(Blinked(false)), Ok(()));
}

#[test]
fn blinking_can_be_started_and_stopped() {
    let mut wrapper = CursorWrapper::new((), Cursor::default());
    assert!(!wrapper.blinking());
    wrapper.start_blinking();
    assert!(wrapper.blinking());
    wrapper.stop_blinking();
    assert!(!wrapper.blinking());

    let mut wrapper = BlinkWrapper::new((), Blink::with_period(8), Blink::with_period(4));
    wrapper.start_blinking();
    assert!(wrapper.blinking());
    wrapper.stop_blinking();
    assert!(!wrapper.blinking());
}

#[test]
fn advancing_to_the_current_state_keeps_the_frame() {
    let at = dumo::layout::Position::new(0, 0);
    let mut wrapper = CursorWrapper::new((), Cursor::default().blink(Blink::Repeat(3, 3)));
    wrapper.advance_blink_by(1);
    assert_eq!(wrapper.advance_cursor_blink_to(Blinked(false)), Ok(()));
    wrapper.advance_blink_by(2);
    assert!(wrapper.cursor_draws(at, None, false).with_cursor);

    let mut wrapper = CursorWrapper::new((), Cursor::default().blink(Blink::Repeat(3, 3)));
    wrapper.advance_blink_by(1);
    assert_eq!(wrapper.advance_cursor_blink_to(Blinked(true)), Ok(()));
    assert!(wrapper.cursor_draws(at, None, false).with_cursor);
    wrapper.advance_blink_by(3);
    assert!(!wrapper.cursor_draws(at, None, false).with_cursor);
}
