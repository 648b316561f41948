//! The caches of cell content kept by the blinking and cursor layers.

use dumo::buffer::Cell;
use dumo::layout::Position;
use dumo::style::{Color, Modifier};
use dumo::wrapper::blink::cache::{Cache as BlinkCache, CacheKey as BlinkKey};
use dumo::wrapper::cursor::cache::{Cache as CursorCache, CacheKey as CursorKey};

fn cell(symbol: &str) -> Cell {
    Cell {
        symbol: symbol.to_string(),
        fg: Color::Reset,
        bg: Color::Reset,
        underline_color: Color::Reset,
        modifier: Modifier { bits: 0 },
    }
}

#[test]
fn cell_width_counts_columns() {
    assert_eq!(cell("a").width(), 1);
    assert_eq!(cell("あ").width(), 2);
    assert_eq!(cell("").width(), 0);
    assert_eq!(Cell::empty().symbol(), " ");
}

#[test]
fn blink_cache_reads_back_and_replaces() {
    let mut cache = BlinkCache::new();
    assert!(cache.insert_or_replace(BlinkKey::new(3, 1), cell("a"), 7).is_none());
    let item = cache.get(&BlinkKey::new(3, 1)).unwrap();
    assert_eq!(item.cell.symbol, "a");
    assert_eq!(item.tickstamp, 7);
    let old = cache.insert_or_replace(BlinkKey::new(3, 1), cell("b"), 9).unwrap();
    assert_eq!(old.cell.symbol, "a");
    assert_eq!(cache.get(&BlinkKey::new(3, 1)).unwrap().cell.symbol, "b");
    assert_eq!(cache.len(), 1);
}

#[test]
fn blink_cache_wide_cell_evicts_its_right_neighbor() {
    let mut cache = BlinkCache::new();
    cache.insert_or_replace(BlinkKey::new(4, 0), cell("x"), 0);
    cache.insert_or_replace(BlinkKey::new(3, 0), cell("あ"), 0);
    assert!(cache.get(&BlinkKey::new(4, 0)).is_none());
    let (x, y, c) = cache.find(Position::new(4, 0)).unwrap();
    assert_eq!((x, y), (3, 0));
    assert_eq!(c.symbol, "あ");
    assert!(cache.find(Position::new(5, 0)).is_none());
}

#[test]
fn blink_cache_keeps_positions_sorted() {
    let mut cache = BlinkCache::new();
    cache.insert_or_replace(BlinkKey::new(5, 0), cell("c"), 0);
    cache.insert_or_replace(BlinkKey::new(1, 2), cell("b"), 0);
    cache.insert_or_replace(BlinkKey::new(1, 1), cell("a"), 0);
    let keys: Vec<(u16, u16)> = cache.iter().map(|i| (i.key.x, i.key.y)).collect();
    assert_eq!(keys, vec![(1, 1), (1, 2), (5, 0)]);
    assert_eq!(cache.at(2).cell.symbol, "c");
    cache.retain(|k| k.x != 1);
    assert_eq!(cache.len(), 1);
    let removed = cache.remove(&BlinkKey::new(5, 0)).unwrap();
    assert_eq!(removed.cell.symbol, "c");
    assert_eq!(cache.len(), 0);
    cache.insert_or_replace(BlinkKey::new(0, 0), cell("d"), 0);
    cache.clear();
    assert_eq!(cache.len(), 0);
}

#[test]
fn cursor_cache_reads_back_and_finds_wide_cells() {
    let mut cache = CursorCache::new();
    assert!(cache.insert_or_replace(CursorKey::new(2, 3), cell("あ")).is_none());
    assert_eq!(cache.get(&CursorKey::new(2, 3)).unwrap().0.symbol, "あ");
    let (x, y, c) = cache.find(Position::new(3, 3)).unwrap();
    assert_eq!((x, y), (2, 3));
    assert_eq!(c.symbol, "あ");
    let (x, y, c) = cache.find(Position::new(7, 7)).unwrap();
    assert_eq!((x, y), (7, 7));
    assert_eq!(c.symbol, " ");
    assert_eq!(cache.remove(&CursorKey::new(2, 3)).unwrap().0.symbol, "あ");
    assert!(cache.get(&CursorKey::new(2, 3)).is_none());
}

#[test]
fn cursor_cache_lists_cells_in_order() {
    let mut cache = CursorCache::new();
    cache.insert_or_replace(CursorKey::new(5, 0), cell("c"));
    cache.insert_or_replace(CursorKey::new(1, 2), cell("b"));
    cache.insert_or_replace(CursorKey::new(1, 1), cell("a"));
    let listed: Vec<(u16, u16, String)> =
        cache.iter().into_iter().map(|(k, i)| (k.x, k.y, i.0.symbol.clone())).collect();
    assert_eq!(
        listed,
        vec![(1, 1, "a".to_string()), (1, 2, "b".to_string()), (5, 0, "c".to_string())]
    );
    cache.retain(|k| k.y == 0);
    assert_eq!(cache.iter().len(), 1);
    cache.clear();
    assert_eq!(cache.iter().len(), 0);
}
