//! The cells that the blinking layer draws right away, caches, and redraws.

use dumo::blink::{Blink, ControlBlinking};
use dumo::buffer::Cell;
use dumo::style::{Color, Modifier, RAPID_BLINK, SLOW_BLINK};
use dumo::wrapper::blink::BlinkWrapper;

fn cell(symbol: &str, bits: u16) -> Cell {
    Cell {
        symbol: symbol.to_string(),
        fg: Color::Reset,
        bg: Color::Reset,
        underline_color: Color::Reset,
        modifier: Modifier { bits },
    }
}

fn symbols(content: &[(u16, u16, Cell)]) -> Vec<(u16, u16, String)> {
    content.iter().map(|(x, y, c)| (*x, *y, c.symbol.clone())).collect()
}

#[test]
fn blinking_cells_are_cached_and_the_rest_drawn() {
    let mut w = BlinkWrapper::new((), Blink::Repeat(1, 1), Blink::Repeat(1, 1));
    let content = vec![
        (0, 0, cell("a", SLOW_BLINK)),
        (1, 0, cell("b", 0)),
        (2, 0, cell("c", SLOW_BLINK | RAPID_BLINK)),
    ];
    let steady = w.cache_content(content);
    assert_eq!(symbols(&steady), vec![(1, 0, "b".to_string())]);

    let redraws = w.redraws();
    assert_eq!(redraws.len(), 3);
    assert!(!redraws[0].hidden);
    assert_eq!(symbols(&redraws[0].content), vec![(0, 0, "a".to_string())]);
    assert!(redraws[1].content.is_empty());
    assert_eq!(symbols(&redraws[2].content), vec![(2, 0, "c".to_string())]);

    w.advance_blink_by(1);
    let redraws = w.redraws();
    assert!(redraws[0].hidden);
    assert_eq!(symbols(&redraws[0].content), vec![(0, 0, "a".to_string())]);
    assert!(redraws[2].hidden);
    assert_eq!(symbols(&redraws[2].content), vec![(2, 0, "c".to_string())]);
}

#[test]
fn steady_cell_evicts_a_blinking_one() {
    let mut w = BlinkWrapper::new((), Blink::Repeat(1, 1), Blink::Repeat(1, 1));
    let _ = w.cache_content(vec![(0, 0, cell("a", SLOW_BLINK))]);
    let steady = w.cache_content(vec![(0, 0, cell("b", 0))]);
    assert_eq!(symbols(&steady), vec![(0, 0, "b".to_string())]);
    w.advance_blink_by(1);
    let redraws = w.redraws();
    assert!(redraws.iter().all(|r| r.content.is_empty()));
}

#[test]
fn frames_end_with_an_advance_only_while_blinking() {
    let mut w = BlinkWrapper::new((), Blink::Repeat(1, 1), Blink::Repeat(1, 1));
    assert!(!w.end_frame());
    let _ = w.cache_content(vec![(0, 0, cell("a", SLOW_BLINK))]);
    assert!(!w.redraws()[0].hidden);
    w.start_blinking();
    assert!(w.end_frame());
    assert!(w.redraws()[0].hidden);
}
