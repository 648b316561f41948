//! The layer that draws a cursor over the cell at the cursor position, redraws the cell once the
//! cursor leaves it, and animates the cursor blinking.

pub mod cache;
pub mod state;

use vstd::prelude::*;

use self::cache::{covered, finds, spans, CacheKey};
use self::state::State;
use super::Wrapper;
use crate::blink::{tick_after, Blink, Blinked, ControlBlinking, ControlCursorBlinking};
use crate::error::AdvanceCursorBlinkingError;
use crate::buffer::{display_width, Cell};
use crate::layout::ClearType;
use crate::style::{Modifier, HIDDEN};
use crate::cursor::{same_symbol, Colors, Cursor, Extent, Symbol};
use crate::layout::Position;

verus! {

/// The cell as cached: with the hidden modifier added when the content is drawn hidden.
pub open spec fn cached_cell(cell: Cell, hidden: bool) -> Cell {
    if hidden {
        Cell { modifier: Modifier { bits: cell.modifier.bits | HIDDEN }, ..cell }
    } else {
        cell
    }
}

/// The cache after drawing one cell: the cell is cached at its position, removing the cells that
/// it covers to its right.
pub open spec fn cache_step(m: Map<CacheKey, Cell>, x: u16, y: u16, cell: Cell) -> Map<
    CacheKey,
    Cell,
> {
    let key = CacheKey { x, y };
    let start = if m.contains_key(key) {
        display_width(m[key].symbol@) as int
    } else {
        1
    };
    let end = display_width(cell.symbol@) as int;
    m.insert(key, cell).remove_keys(Set::new(|k: CacheKey| covered(key, start, end, k)))
}

/// The cache after drawing a sequence of cells in order, drawn hidden or not.
pub open spec fn cache_steps(m: Map<CacheKey, Cell>, content: Seq<(u16, u16, Cell)>, hidden: bool) -> Map<
    CacheKey,
    Cell,
>
    decreases content.len(),
{
    if content.len() == 0 {
        m
    } else {
        let last = content.last();
        cache_step(
            cache_steps(m, content.drop_last(), hidden),
            last.0,
            last.1,
            cached_cell(last.2, hidden),
        )
    }
}

/// Whether a cell drawn at `(x, y)` spans the cursor position.
pub open spec fn covers_cursor(x: u16, y: u16, cell: Cell, position: Position) -> bool {
    y == position.y && x <= position.x < x + display_width(cell.symbol@)
}

/// The index of the last cell of a sequence that spans the cursor position, if any.
pub open spec fn last_cover(content: Seq<(u16, u16, Cell)>, position: Position) -> Option<int>
    decreases content.len(),
{
    if content.len() == 0 {
        None
    } else {
        let last = content.last();
        if covers_cursor(last.0, last.1, last.2, position) {
            Some(content.len() - 1)
        } else {
            last_cover(content.drop_last(), position)
        }
    }
}

/// The position of the cell that spans `position`, as found in a cache.
pub open spec fn found_position(m: Map<CacheKey, Cell>, position: Position) -> CacheKey {
    let here = CacheKey { x: position.x, y: position.y };
    let left = CacheKey { x: (position.x - 1) as u16, y: position.y };
    if m.contains_key(here) && spans(m[here], here.x, position.x) {
        here
    } else if position.x >= 1 && m.contains_key(left) && spans(m[left], left.x, position.x) {
        left
    } else {
        here
    }
}

/// Whether a cached cell at `k` is kept when clearing a region relative to the cell at `(x, y)`
/// that the cursor is in: cells before the cursor cell are kept when clearing after it, cells
/// after it when clearing before it, other lines when clearing the line, and other lines and the
/// cells before the cursor cell when clearing until the end of the line.
pub open spec fn kept_by_clear(clear_type: ClearType, x: u16, y: u16, k: CacheKey) -> bool {
    match clear_type {
        ClearType::All => false,
        ClearType::AfterCursor => y > k.y || (y == k.y && x > k.x),
        ClearType::BeforeCursor => y < k.y || (y == k.y && x < k.x),
        ClearType::CurrentLine => y != k.y,
        ClearType::UntilNewLine => y != k.y || x > k.x,
    }
}

/// Whether the cursor has been hidden or shown since it was last drawn, after hiding it.
pub open spec fn toggled_after_hide(hidden: bool, toggled: bool) -> bool {
    if hidden {
        toggled
    } else {
        !toggled
    }
}

/// Whether the cursor has been hidden or shown since it was last drawn, after showing it.
pub open spec fn toggled_after_show(hidden: bool, toggled: bool) -> bool {
    if hidden {
        !toggled
    } else {
        toggled
    }
}

/// The position that the cursor has left since it was last drawn, after moving it from `previous`
/// to `position`.
pub open spec fn left_after_move(left: Option<Position>, previous: Position, position: Position) -> Option<
    Position,
> {
    if position == previous {
        left
    } else {
        match left {
            Some(p) => if position == p {
                None
            } else {
                Some(p)
            },
            None => Some(previous),
        }
    }
}

/// The draws that complete a frame of the cursor layer.
#[derive(Debug)]
pub struct CursorDraws {
    /// The cell to redraw at the position that the cursor has left, with its position.
    pub restore: Option<(u16, u16, Cell)>,
    /// The cell at the cursor position, with its position: drawn with the cursor over it, or drawn
    /// as is when the cursor has just blinked off.
    pub cursor: Option<(u16, u16, Cell)>,
    /// Whether `cursor` is drawn with the cursor over it.
    pub with_cursor: bool,
}

/// Wrapper that is required in order for a cursor to reveal itself whenever the cursor is shown or
/// moved, keeping track of its position and driving its animation, redrawing cells not only as
/// the cursor is blinking, but also when the cursor leaves a cell.
///
/// For this purpose, the layer maintains a cache with the last known content of every cell
/// position, removing entries when the text area or a region of it is cleared.
#[derive(Debug)]
pub struct CursorWrapper<'a, B> {
    backend: B,
    cursor: Cursor<'a>,
    state: State,
}

/// Backend configuration retrieval and modification of the [`CursorWrapper`] layer.
pub trait ConfigureCursorWrapper<'a> {
    /// Returns the blink animation cycle for the cursor.
    fn get_cursor_blink(&self) -> Blink;

    /// Sets the blink animation cycle for the cursor.
    fn set_cursor_blink(&mut self, blink: Blink);

    /// Returns the method used by the cursor for choosing colors.
    fn get_cursor_colors(&self) -> Colors;

    /// Sets the method used by the cursor for choosing colors.
    fn set_cursor_colors(&mut self, colors: Colors);

    /// Returns the shape that represents the cursor inside of the cell area.
    fn get_cursor_extent(&self) -> Extent;

    /// Sets the shape that represents the cursor inside of the cell area.
    fn set_cursor_extent(&mut self, extent: Extent);

    /// Returns the source of the content that the cursor uses to symbolize itself.
    fn get_cursor_symbol(&self) -> Symbol<'a>;

    /// Sets the source of the content that the cursor uses to symbolize itself.
    fn set_cursor_symbol(&mut self, symbol: Symbol<'a>);
}

impl<'a, B> CursorWrapper<'a, B> {
    /// The wrapped backend.
    pub closed spec fn backend(&self) -> B {
        self.backend
    }

    /// The cursor appearance settings.
    pub closed spec fn cursor(&self) -> Cursor<'a> {
        self.cursor
    }

    /// The frame count of the cursor animation.
    pub closed spec fn ticks(&self) -> usize {
        self.state.ticks
    }

    /// Whether drawing advances the cursor animation.
    pub closed spec fn is_blinking(&self) -> bool {
        self.state.blinking
    }

    /// The position that the cursor has left since it was last drawn, if it has moved.
    pub closed spec fn left_position(&self) -> Option<Position> {
        self.state.cursor_position_changed
    }

    /// Whether the cursor is hidden.
    pub closed spec fn hidden(&self) -> bool {
        self.state.cursor_hidden
    }

    /// Whether the cursor has been hidden or shown since it was last drawn.
    pub closed spec fn hidden_toggled(&self) -> bool {
        self.state.cursor_hidden_toggled is Some
    }

    /// Whether the appearance of the cursor has changed since it was last drawn.
    pub closed spec fn appearance_changed(&self) -> bool {
        self.state.cursor_changed
    }

    /// The last known content of every cell position.
    pub closed spec fn cached(&self) -> Map<CacheKey, Cell> {
        self.state.cache@
    }

    /// The same layer, apart from the frame count and the cache.
    pub open spec fn same_settings(&self, other: &Self) -> bool {
        &&& self.backend() == other.backend()
        &&& self.cursor() == other.cursor()
        &&& self.is_blinking() == other.is_blinking()
        &&& self.left_position() == other.left_position()
        &&& self.hidden() == other.hidden()
        &&& self.hidden_toggled() == other.hidden_toggled()
        &&& self.appearance_changed() == other.appearance_changed()
    }

    /// Creates a new wrapper around the specified backend, configuring the appearance of a cursor,
    /// which indicates the last position that the backend has been asked to move the cursor to.
    pub fn new(backend: B, cursor: Cursor<'a>) -> (r: Self)
        ensures
            r.backend() == backend,
            r.cursor() == cursor,
            r.ticks() == 0,
            !r.is_blinking(),
            r.left_position() is None,
            !r.hidden(),
            !r.hidden_toggled(),
            r.appearance_changed(),
            r.cached() == Map::<CacheKey, Cell>::empty(),
    {
        CursorWrapper { backend, cursor, state: State::new() }
    }

    /// Hides the cursor. Hiding a cursor that is shown toggles whether it has been hidden or shown
    /// since it was last drawn, so that showing it again before then reverts the change.
    pub fn hide_cursor(&mut self)
        ensures
            final(self).hidden(),
            final(self).hidden_toggled() == toggled_after_hide(
                old(self).hidden(),
                old(self).hidden_toggled(),
            ),
            final(self).backend() == old(self).backend(),
            final(self).cursor() == old(self).cursor(),
            final(self).ticks() == old(self).ticks(),
            final(self).is_blinking() == old(self).is_blinking(),
            final(self).left_position() == old(self).left_position(),
            final(self).appearance_changed() == old(self).appearance_changed(),
            final(self).cached() == old(self).cached(),
    {
        let cursor_hidden = self.state.cursor_hidden;
        self.state.cursor_hidden = true;
        let is_update = !cursor_hidden;
        if is_update {
            let is_revert = self.state.cursor_hidden_toggled.is_some();
            if is_revert {
                self.state.cursor_hidden_toggled = None;
            } else {
                self.state.cursor_hidden_toggled = Some(());
            }
        }
    }

    /// Shows the cursor. Showing a cursor that is hidden toggles whether it has been hidden or shown
    /// since it was last drawn, so that hiding it again before then reverts the change.
    pub fn show_cursor(&mut self)
        ensures
            !final(self).hidden(),
            final(self).hidden_toggled() == toggled_after_show(
                old(self).hidden(),
                old(self).hidden_toggled(),
            ),
            final(self).backend() == old(self).backend(),
            final(self).cursor() == old(self).cursor(),
            final(self).ticks() == old(self).ticks(),
            final(self).is_blinking() == old(self).is_blinking(),
            final(self).left_position() == old(self).left_position(),
            final(self).appearance_changed() == old(self).appearance_changed(),
            final(self).cached() == old(self).cached(),
    {
        let cursor_hidden = self.state.cursor_hidden;
        self.state.cursor_hidden = false;
        let is_update = cursor_hidden;
        if is_update {
            let is_revert = self.state.cursor_hidden_toggled.is_some();
            if is_revert {
                self.state.cursor_hidden_toggled = None;
            } else {
                self.state.cursor_hidden_toggled = Some(());
            }
        }
    }

    /// Records that the backend has moved the cursor from `previous` to `position`: the first
    /// position that the cursor leaves is remembered until the cursor is drawn, and moving back to
    /// that position before then forgets it.
    pub fn set_cursor_position(&mut self, previous: Position, position: Position)
        ensures
            final(self).left_position() == left_after_move(
                old(self).left_position(),
                previous,
                position,
            ),
            final(self).backend() == old(self).backend(),
            final(self).cursor() == old(self).cursor(),
            final(self).ticks() == old(self).ticks(),
            final(self).is_blinking() == old(self).is_blinking(),
            final(self).hidden() == old(self).hidden(),
            final(self).hidden_toggled() == old(self).hidden_toggled(),
            final(self).appearance_changed() == old(self).appearance_changed(),
            final(self).cached() == old(self).cached(),
    {
        let is_update = position != previous;
        if is_update {
            if let Some(cursor_position) = self.state.cursor_position_changed {
                let is_revert = position == cursor_position;
                if is_revert {
                    self.state.cursor_position_changed = None;
                }
            } else {
                self.state.cursor_position_changed = Some(previous);
            }
        }
    }

    /// Caches the content that is to be drawn, each cell with the hidden modifier added when the
    /// content is drawn hidden, and returns the last cell that spans the cursor position, as cached.
    pub fn cache_content(
        &mut self,
        content: &Vec<(u16, u16, Cell)>,
        hidden: bool,
        cursor_position: Position,
    ) -> (r: Option<(u16, u16, Cell)>)
        ensures
            final(self).cached() == cache_steps(old(self).cached(), content@, hidden),
            r == (match last_cover(content@, cursor_position) {
                Some(i) => Some(
                    (content@[i].0, content@[i].1, cached_cell(content@[i].2, hidden)),
                ),
                None => None::<(u16, u16, Cell)>,
            }),
            final(self).same_settings(&*old(self)),
            final(self).ticks() == old(self).ticks(),
    {
        let mut cursor_content: Option<(u16, u16, Cell)> = None;
        let mut i: usize = 0;
        while i < content.len()
            invariant
                i <= content@.len(),
                self.state.cache@ == cache_steps(old(self).cached(), content@.take(i as int), hidden),
                cursor_content == (match last_cover(content@.take(i as int), cursor_position) {
                    Some(j) => Some(
                        (content@[j].0, content@[j].1, cached_cell(content@[j].2, hidden)),
                    ),
                    None => None::<(u16, u16, Cell)>,
                }),
                self.same_settings(&*old(self)),
                self.state.ticks == old(self).state.ticks,
            decreases content@.len() - i,
        {
            let entry = &content[i];
            let x = entry.0;
            let y = entry.1;
            let mut cell = entry.2.clone();
            if hidden {
                cell.modifier = cell.modifier.union(Modifier { bits: HIDDEN });
            }
            proof {
                assert(content@.take(i + 1).drop_last() =~= content@.take(i as int));
                assert(content@.take(i + 1).last() == content@[i as int]);
                assert(cell == cached_cell(content@[i as int].2, hidden));
            }
            let end = cell.width();
            if y == cursor_position.y && cursor_position.x >= x && ((cursor_position.x - x)
                as usize) < end {
                cursor_content = Some((x, y, cell.clone()));
            }
            let _ = self.state.cache.insert_or_replace(CacheKey::new(x, y), cell);
            i = i + 1;
        }
        proof {
            assert(content@.take(content@.len() as int) =~= content@);
        }
        cursor_content
    }

    /// Decides what completes a frame after the content is drawn, given the cursor position, the
    /// last cell drawn that spans it, and whether an inner layer has drawn over the cursor: the
    /// cell at a position that the cursor has left is redrawn when the cursor is shown, or has
    /// just been hidden, and it has either just blinked or was on in the previous frame; the cell
    /// at the cursor position is drawn with the cursor over it while the cursor is shown and on,
    /// or as is when the cursor has just blinked off, using the cell just drawn there, or else the
    /// cached cell when the cursor may need to be redrawn. Clears the record of what has changed.
    pub fn cursor_draws(
        &mut self,
        cursor_position: Position,
        cursor_content: Option<(u16, u16, Cell)>,
        cursor_is_dirty: bool,
    ) -> (r: CursorDraws)
        ensures
            ({
                let blink = old(self).cursor().blink;
                let now = blink.blinked_at(old(self).ticks() as int);
                let previous = blink.blinked_at(
                    crate::wrapper::blink::previous_tick(old(self).ticks()) as int,
                );
                let changed = now != previous;
                let visible = !old(self).hidden();
                &&& match old(self).left_position() {
                    Some(p) => if (visible || old(self).hidden_toggled()) && (changed || previous) {
                        r.restore matches Some((x, y, c)) && finds(old(self).cached(), p, x, y, c)
                    } else {
                        r.restore is None
                    },
                    None => r.restore is None,
                }
                &&& if visible && (now || changed) {
                    match cursor_content {
                        Some(c) => r.cursor == Some(c),
                        None => if cursor_is_dirty || changed || old(self).left_position() is Some
                            || old(self).appearance_changed() {
                            r.cursor matches Some((x, y, c)) && finds(
                                old(self).cached(),
                                cursor_position,
                                x,
                                y,
                                c,
                            )
                        } else {
                            r.cursor is None
                        },
                    }
                } else {
                    r.cursor is None
                }
                &&& r.with_cursor == now
            }),
            final(self).left_position() is None,
            !final(self).hidden_toggled(),
            !final(self).appearance_changed(),
            final(self).backend() == old(self).backend(),
            final(self).cursor() == old(self).cursor(),
            final(self).ticks() == old(self).ticks(),
            final(self).is_blinking() == old(self).is_blinking(),
            final(self).hidden() == old(self).hidden(),
            final(self).cached() == old(self).cached(),
    {
        let ticks = self.state.ticks;
        let cursor_blink = self.cursor.blink.get(ticks);
        let previous_cursor_blink = self.cursor.blink.get(ticks.wrapping_sub(1));
        let cursor_is_visible = !self.state.cursor_hidden;
        let cursor_hidden_toggled = self.state.cursor_hidden_toggled.is_some();
        self.state.cursor_hidden_toggled = None;
        let cursor_blink_changed = cursor_blink.0 != previous_cursor_blink.0;
        let cursor_position_changed = self.state.cursor_position_changed.is_some();
        let left = self.state.cursor_position_changed;
        self.state.cursor_position_changed = None;
        let mut restore: Option<(u16, u16, Cell)> = None;
        if let Some(position) = left {
            if (cursor_is_visible || cursor_hidden_toggled) && (cursor_blink_changed
                || previous_cursor_blink.0) {
                if let Some((x, y, cell)) = self.state.cache.find(position) {
                    restore = Some((x, y, cell.clone()));
                }
            }
        }
        let mut cursor: Option<(u16, u16, Cell)> = None;
        if cursor_is_visible && (cursor_blink.0 || cursor_blink_changed) {
            match cursor_content {
                Some(content) => {
                    cursor = Some(content);
                },
                None => {
                    if cursor_is_dirty || cursor_blink_changed || cursor_position_changed
                        || self.state.cursor_changed {
                        if let Some((x, y, cell)) = self.state.cache.find(cursor_position) {
                            cursor = Some((x, y, cell.clone()));
                        }
                    }
                },
            }
        }
        self.state.cursor_changed = false;
        CursorDraws { restore, cursor, with_cursor: cursor_blink.0 }
    }

    /// Empties the cache once the text area has been cleared, returning the cell over which to draw
    /// the cursor when it is shown and on: an empty cell at the cursor position.
    pub fn clear_cache(&mut self, cursor_position: Position) -> (r: Option<(u16, u16, Cell)>)
        ensures
            final(self).cached() == Map::<CacheKey, Cell>::empty(),
            if !old(self).hidden() && old(self).cursor().blink.blinked_at(old(self).ticks() as int) {
                r matches Some((x, y, c)) && x == cursor_position.x && y == cursor_position.y
                    && cache::empty_cell(c)
            } else {
                r is None
            },
            final(self).same_settings(&*old(self)),
            final(self).ticks() == old(self).ticks(),
    {
        let cursor_blink = self.cursor.blink.get(self.state.ticks);
        let cursor_is_visible = !self.state.cursor_hidden;
        self.state.cache.clear();
        if cursor_is_visible && cursor_blink.0 {
            match self.state.cache.find(cursor_position) {
                Some((x, y, cell)) => Some((x, y, cell.clone())),
                None => None,
            }
        } else {
            None
        }
    }

    /// Removes the cached cells of a region once it has been cleared, the region being relative to
    /// the cell that spans the cursor position, and returns the cell over which to draw the cursor
    /// when it is shown and on, as found in the cache that remains.
    pub fn clear_region(&mut self, clear_type: ClearType, cursor_position: Position) -> (r: Option<
        (u16, u16, Cell),
    >)
        ensures
            ({
                let anchor = found_position(old(self).cached(), cursor_position);
                final(self).cached() == old(self).cached().restrict(
                    Set::new(|k: CacheKey| kept_by_clear(clear_type, anchor.x, anchor.y, k)),
                )
            }),
            if !old(self).hidden() && old(self).cursor().blink.blinked_at(old(self).ticks() as int) {
                r matches Some((x, y, c)) && finds(final(self).cached(), cursor_position, x, y, c)
            } else {
                r is None
            },
            final(self).same_settings(&*old(self)),
            final(self).ticks() == old(self).ticks(),
    {
        let cursor_blink = self.cursor.blink.get(self.state.ticks);
        let cursor_is_visible = !self.state.cursor_hidden;
        let (x, y) = match self.state.cache.find(cursor_position) {
            Some((x, y, _)) => (x, y),
            None => (cursor_position.x, cursor_position.y),
        };
        let ghost before = self.state.cache@;
        let ghost kept = Set::new(|k: CacheKey| kept_by_clear(clear_type, x, y, k));
        match clear_type {
            ClearType::All => {
                self.state.cache.clear();
            },
            _ => {
                let f = |k: CacheKey| -> (keep: bool)
                    ensures
                        keep == kept_by_clear(clear_type, x, y, k),
                    {
                        match clear_type {
                            ClearType::All => false,
                            ClearType::AfterCursor => y > k.y || (y == k.y && x > k.x),
                            ClearType::BeforeCursor => y < k.y || (y == k.y && x < k.x),
                            ClearType::CurrentLine => y != k.y,
                            ClearType::UntilNewLine => y != k.y || x > k.x,
                        }
                    };
                self.state.cache.retain(f);
            },
        }
        proof {
            assert(self.state.cache@ =~= before.restrict(kept));
        }
        if cursor_is_visible && cursor_blink.0 {
            match self.state.cache.find(cursor_position) {
                Some((x, y, cell)) => Some((x, y, cell.clone())),
                None => None,
            }
        } else {
            None
        }
    }

    /// Ends a frame of drawing: advances the frame count by one when drawing drives the
    /// animation, and returns whether it did, so that the layers inside advance as well.
    pub fn end_frame(&mut self) -> (advanced: bool)
        ensures
            advanced == old(self).is_blinking(),
            final(self).ticks() == (if advanced {
                tick_after(old(self).ticks(), 1)
            } else {
                old(self).ticks()
            }),
            final(self).same_settings(&*old(self)),
            final(self).cached() == old(self).cached(),
    {
        if self.state.blinking {
            self.advance_blink_by(1);
            true
        } else {
            false
        }
    }

    /// Advances the frame count of the cursor animation, wrapping around.
    pub fn advance_blink_by(&mut self, ticks: usize)
        ensures
            final(self).ticks() == tick_after(old(self).ticks(), ticks),
            final(self).same_settings(&*old(self)),
            final(self).cached() == old(self).cached(),
    {
        self.state.ticks = self.state.ticks.wrapping_add(ticks);
    }
}

impl<'a, B> ConfigureCursorWrapper<'a> for CursorWrapper<'a, B> {
    fn get_cursor_blink(&self) -> (r: Blink)
        ensures
            r == self.cursor().blink,
    {
        self.cursor.blink
    }

    fn set_cursor_blink(&mut self, blink: Blink)
        ensures
            final(self).cursor() == (Cursor { blink, ..old(self).cursor() }),
            final(self).appearance_changed() == old(self).appearance_changed(),
            final(self).ticks() == old(self).ticks(),
            final(self).backend() == old(self).backend(),
            final(self).cached() == old(self).cached(),
    {
        self.cursor.blink = blink;
    }

    fn get_cursor_colors(&self) -> (r: Colors)
        ensures
            r == self.cursor().colors,
    {
        self.cursor.colors
    }

    fn set_cursor_colors(&mut self, colors: Colors)
        ensures
            final(self).cursor() == (Cursor { colors, ..old(self).cursor() }),
            final(self).appearance_changed() == (old(self).appearance_changed() || colors
                != old(self).cursor().colors),
            final(self).ticks() == old(self).ticks(),
            final(self).backend() == old(self).backend(),
            final(self).cached() == old(self).cached(),
    {
        self.state.cursor_changed = self.state.cursor_changed || colors != self.cursor.colors;
        self.cursor.colors = colors;
    }

    fn get_cursor_extent(&self) -> (r: Extent)
        ensures
            r == self.cursor().extent,
    {
        self.cursor.extent
    }

    fn set_cursor_extent(&mut self, extent: Extent)
        ensures
            final(self).cursor() == (Cursor { extent, ..old(self).cursor() }),
            final(self).appearance_changed() == (old(self).appearance_changed() || extent
                != old(self).cursor().extent),
            final(self).ticks() == old(self).ticks(),
            final(self).backend() == old(self).backend(),
            final(self).cached() == old(self).cached(),
    {
        self.state.cursor_changed = self.state.cursor_changed || extent != self.cursor.extent;
        self.cursor.extent = extent;
    }

    fn get_cursor_symbol(&self) -> (r: Symbol<'a>)
        ensures
            r == self.cursor().symbol,
    {
        self.cursor.symbol
    }

    fn set_cursor_symbol(&mut self, symbol: Symbol<'a>)
        ensures
            final(self).cursor() == (Cursor { symbol, ..old(self).cursor() }),
            final(self).appearance_changed() == (old(self).appearance_changed() || !same_symbol(
                symbol,
                old(self).cursor().symbol,
            )),
            symbol matches Symbol::Custom(s) && old(self).cursor().symbol matches Symbol::Custom(t)
                && s@ != t@ ==> final(self).appearance_changed(),
            symbol matches Symbol::Custom(s) && old(self).cursor().symbol matches Symbol::Custom(t)
                && s@ == t@ ==> final(self).appearance_changed() == old(self).appearance_changed(),
            final(self).ticks() == old(self).ticks(),
            final(self).backend() == old(self).backend(),
            final(self).cached() == old(self).cached(),
    {
        self.state.cursor_changed = self.state.cursor_changed || symbol != self.cursor.symbol;
        self.cursor.symbol = symbol;
    }
}

impl<'a, B> ControlBlinking for CursorWrapper<'a, B> {
    fn blinking(&self) -> (r: bool)
        ensures
            r == self.is_blinking(),
    {
        self.state.blinking
    }

    fn start_blinking(&mut self)
        ensures
            final(self).is_blinking(),
            final(self).ticks() == old(self).ticks(),
            final(self).cached() == old(self).cached(),
            final(self).backend() == old(self).backend(),
            final(self).cursor() == old(self).cursor(),
    {
        self.state.blinking = true;
    }

    fn stop_blinking(&mut self)
        ensures
            !final(self).is_blinking(),
            final(self).ticks() == old(self).ticks(),
            final(self).cached() == old(self).cached(),
            final(self).backend() == old(self).backend(),
            final(self).cursor() == old(self).cursor(),
    {
        self.state.blinking = false;
    }
}

/// The frame count that advancing the cursor animation to a _blinked_ state yields from frame
/// `ticks`: the frame itself when it already has the state, or else the start of the next phase
/// with the state; `None` when no frame of the cycle has the state.
pub open spec fn advanced_ticks(blink: Blink, ticks: usize, blinked: bool) -> Option<usize> {
    if blink.blinked_at(ticks as int) == blinked {
        Some(ticks)
    } else {
        next_phase_ticks(blink, ticks, blinked)
    }
}

/// Division rounding up, for a positive divisor.
pub open spec fn div_ceil(a: int, b: int) -> int {
    a / b + if a % b == 0 {
        0int
    } else {
        1int
    }
}

/// The frame where the next phase with a _blinked_ state starts after frame `ticks`: the start of
/// the next cycle, or the frame of the next cycle where the cursor turns, for the visible and the
/// _blinked_ states respectively; `None` when no frame of the cycle has the state. Products wrap
/// around, and adding the delay saturates.
pub open spec fn next_phase_ticks(blink: Blink, ticks: usize, blinked: bool) -> Option<usize> {
    let delay = blink.delay();
    let hidden = blink.hidden();
    let period = delay + hidden;
    if !blinked {
        if delay == 0 {
            None
        } else if period <= usize::MAX {
            Some(((div_ceil(ticks as int, period) * period) % (usize::MAX + 1)) as usize)
        } else {
            Some(0)
        }
    } else if hidden == 0 {
        if delay == 0 {
            Some(ticks)
        } else {
            None
        }
    } else if period <= usize::MAX {
        let from = if ticks >= delay {
            ticks - delay
        } else {
            0
        };
        let cycles = (div_ceil(from, period) * period) % (usize::MAX + 1);
        Some(
            (if cycles + delay > usize::MAX {
                usize::MAX as int
            } else {
                cycles + delay
            }) as usize,
        )
    } else {
        Some(delay as usize)
    }
}

/// `a.div_ceil(b)` on `usize`, for a positive `b`.
fn div_ceil_usize(a: usize, b: usize) -> (r: usize)
    requires
        b > 0,
    ensures
        r == div_ceil(a as int, b as int),
{
    let q = a / b;
    if a % b == 0 {
        q
    } else {
        assert(q < a || b == 1) by (nonlinear_arith)
            requires
                q == a / b,
                b > 0,
                a % b != 0,
        ;
        q + 1
    }
}

impl<'a, B> ControlCursorBlinking for CursorWrapper<'a, B> {
    fn advance_cursor_blink_to(&mut self, blinked: Blinked) -> (r: Result<
        (),
        AdvanceCursorBlinkingError,
    >)
        ensures
            match advanced_ticks(old(self).cursor().blink, old(self).ticks(), blinked.0) {
                Some(ticks) => r is Ok && final(self).ticks() == ticks,
                None => r == Err::<(), _>(AdvanceCursorBlinkingError::InvalidBlinked)
                    && final(self).ticks() == old(self).ticks(),
            },
            final(self).same_settings(&*old(self)),
            final(self).cached() == old(self).cached(),
    {
        let ticks = self.state.ticks;
        let result: Result<usize, AdvanceCursorBlinkingError> = if self.cursor.blink.get(
            ticks,
        ).0 == blinked.0 {
            Ok(ticks)
        } else {
            match self.cursor.blink {
                Blink::Repeat(delay, blink) => match blinked {
                    Blinked(false) => {
                        if delay == 0 {
                            Err(AdvanceCursorBlinkingError::InvalidBlinked)
                        } else if let Some(period) = delay.checked_add(blink) {
                            let cycles = div_ceil_usize(ticks, period);
                            Ok(cycles.wrapping_mul(period))
                        } else {
                            Ok(0)
                        }
                    },
                    Blinked(true) => {
                        if blink == 0 {
                            if delay == 0 {
                                Ok(ticks)
                            } else {
                                Err(AdvanceCursorBlinkingError::InvalidBlinked)
                            }
                        } else if let Some(period) = delay.checked_add(blink) {
                            let cycles = div_ceil_usize(ticks.saturating_sub(delay), period);
                            Ok(cycles.wrapping_mul(period).saturating_add(delay))
                        } else {
                            Ok(delay)
                        }
                    },
                },
            }
        };
        match result {
            Ok(ticks) => {
                self.state.ticks = ticks;
                Ok(())
            },
            Err(e) => Err(e),
        }
    }
}

impl<'a, B> Wrapper for CursorWrapper<'a, B> {
    type Inner = B;

    fn inner(&self) -> (r: &B)
        ensures
            *r == self.backend(),
    {
        &self.backend
    }

    fn inner_mut(&mut self) -> (r: &mut B)
        ensures
            *r == old(self).backend(),
            final(self).backend() == *final(r),
            final(self).cursor() == old(self).cursor(),
            final(self).ticks() == old(self).ticks(),
            final(self).cached() == old(self).cached(),
    {
        &mut self.backend
    }

    fn into_inner(self) -> (r: B)
        ensures
            r == self.backend(),
    {
        self.backend
    }
}

} // verus!

verus! {

/// Showing a cursor right after hiding it, or hiding it right after showing it, undoes the record
/// of it having been hidden or shown since it was last drawn.
pub proof fn hide_and_show_undo_each_other(toggled: bool)
    ensures
        toggled_after_show(true, toggled_after_hide(false, toggled)) == toggled,
        toggled_after_hide(false, toggled_after_show(true, toggled)) == toggled,
        toggled_after_hide(true, toggled) == toggled,
        toggled_after_show(false, toggled) == toggled,
{
}

/// Moving the cursor away and back to where it was when it was last drawn leaves no record of the
/// cursor having moved, while any other sequence of moves remembers the first position left.
pub proof fn moving_back_forgets_the_move(first: Position, second: Position, third: Position)
    requires
        first != second,
    ensures
        left_after_move(left_after_move(None, first, second), second, first) is None,
        third != first ==> left_after_move(left_after_move(None, first, second), second, third)
            == Some(first),
{
}

/// Clearing a region drops exactly the cached cells in that region: all of them, those at or after
/// the cell with the cursor in reading order, those at or before it, those on its line, or those
/// on its line at or after it.
pub proof fn clear_drops_the_region(
    m: Map<CacheKey, Cell>,
    clear_type: ClearType,
    anchor: CacheKey,
    k: CacheKey,
)
    ensures
        ({
            let kept = m.restrict(
                Set::new(|c: CacheKey| kept_by_clear(clear_type, anchor.x, anchor.y, c)),
            );
            let at_or_after = k.y > anchor.y || (k.y == anchor.y && k.x >= anchor.x);
            let at_or_before = k.y < anchor.y || (k.y == anchor.y && k.x <= anchor.x);
            let in_region = match clear_type {
                ClearType::All => true,
                ClearType::AfterCursor => at_or_after,
                ClearType::BeforeCursor => at_or_before,
                ClearType::CurrentLine => k.y == anchor.y,
                ClearType::UntilNewLine => k.y == anchor.y && k.x >= anchor.x,
            };
            kept.contains_key(k) <==> m.contains_key(k) && !in_region
        }),
{
}

/// A frame `q * p + j` of a cycle of `p` frames lies `j` frames into cycle `q`.
proof fn lemma_frame_in_cycle(q: int, p: int, j: int)
    requires
        p > 0,
        0 <= j < p,
    ensures
        (q * p + j) % p == j,
        (q * p + j) / p == q,
{
    vstd::arithmetic::div_mod::lemma_fundamental_div_mod_converse(q * p + j, p, q, j);
}

/// Splits a frame into its cycle and its offset in the cycle, and rounds up to whole cycles.
proof fn lemma_split_frame(a: int, p: int)
    requires
        a >= 0,
        p > 0,
    ensures
        a == (a / p) * p + a % p,
        0 <= a % p < p,
        a / p >= 0,
        div_ceil(a, p) * p == (a / p) * p + if a % p == 0 {
            0
        } else {
            p
        },
{
    vstd::arithmetic::div_mod::lemma_fundamental_div_mod(a, p);
    vstd::arithmetic::div_mod::lemma_div_pos_is_pos(a, p);
    assert(a == (a / p) * p + a % p) by (nonlinear_arith)
        requires
            a == p * (a / p) + a % p,
    ;
    assert(div_ceil(a, p) * p == (a / p) * p + if a % p == 0 {
        0
    } else {
        p
    }) by (nonlinear_arith)
        requires
            div_ceil(a, p) == a / p + if a % p == 0 {
                0int
            } else {
                1int
            },
    ;
}

/// The next phase with a _blinked_ state is missing exactly when no frame has that state.
proof fn next_phase_fails_iff_state_absent(blink: Blink, ticks: usize, blinked: bool)
    ensures
        next_phase_ticks(blink, ticks, blinked) is None <==> (forall|i: int|
            0 <= i ==> #[trigger] blink.blinked_at(i) != blinked),
{
    let d = blink.delay();
    let h = blink.hidden();
    let p = d + h;
    if next_phase_ticks(blink, ticks, blinked) is None {
        assert forall|i: int| 0 <= i implies #[trigger] blink.blinked_at(i) != blinked by {
            if p > 0 && p <= usize::MAX {
                vstd::arithmetic::div_mod::lemma_mod_bound(i, p);
            }
        }
    } else {
        if !blinked {
            assert(!blink.blinked_at(0));
        } else if h == 0 {
            assert(blink.blinked_at(0));
        } else {
            if p <= usize::MAX {
                vstd::arithmetic::div_mod::lemma_small_mod(d as nat, p as nat);
            }
            assert(blink.blinked_at(d));
        }
    }
}

/// The products and the sum that advancing the cursor animation computes stay within `usize`.
pub open spec fn advance_without_wrap(blink: Blink, ticks: usize, blinked: bool) -> bool {
    let d = blink.delay();
    let p = d + blink.hidden();
    let from = if ticks >= d {
        ticks - d
    } else {
        0
    };
    if !blinked {
        p > 0 ==> div_ceil(ticks as int, p) * p <= usize::MAX
    } else {
        p > 0 ==> div_ceil(from, p) * p + d <= usize::MAX
    }
}

/// The start of the next phase with a _blinked_ state has that state and lies less than one cycle
/// ahead; when the current frame does not have the state, no frame before it has it either.
proof fn next_phase_reaches_state(blink: Blink, ticks: usize, blinked: bool)
    requires
        next_phase_ticks(blink, ticks, blinked) is Some,
        blink.delay() + blink.hidden() <= usize::MAX,
        advance_without_wrap(blink, ticks, blinked),
    ensures
        ({
            let t = next_phase_ticks(blink, ticks, blinked).unwrap() as int;
            let p = blink.delay() + blink.hidden();
            &&& blink.blinked_at(t) == blinked
            &&& ticks <= t
            &&& p > 0 ==> t < ticks + p
            &&& blink.blinked_at(ticks as int) != blinked ==> forall|i: int|
                ticks <= i < t ==> #[trigger] blink.blinked_at(i) != blinked
        }),
{
    let d = blink.delay();
    let h = blink.hidden();
    let p = d + h;
    let t = next_phase_ticks(blink, ticks, blinked).unwrap() as int;
    if p == 0 {
        return;
    }
    lemma_split_frame(ticks as int, p);
    let qt = (ticks as int) / p;
    let rt = (ticks as int) % p;
    if !blinked {
        vstd::arithmetic::div_mod::lemma_small_mod(
            (div_ceil(ticks as int, p) * p) as nat,
            (usize::MAX + 1) as nat,
        );
        assert(t == div_ceil(ticks as int, p) * p);
        if rt == 0 {
            lemma_frame_in_cycle(qt, p, 0);
        } else {
            lemma_frame_in_cycle(qt + 1, p, 0);
            assert(t == (qt + 1) * p) by (nonlinear_arith)
                requires
                    t == qt * p + p,
            ;
            if blink.blinked_at(ticks as int) != blinked {
                assert(rt >= d);
                assert forall|i: int| ticks <= i < t implies #[trigger] blink.blinked_at(i)
                    != blinked by {
                    lemma_frame_in_cycle(qt, p, i - qt * p);
                }
            }
        }
        assert(blink.blinked_at(t) == blinked) by {
            if rt == 0 {
                assert(t == qt * p);
                lemma_frame_in_cycle(qt, p, 0);
                assert(t % p == 0);
            } else {
                assert(t % p == 0);
            }
        }
    } else {
        vstd::arithmetic::div_mod::lemma_small_mod(d as nat, p as nat);
        if ticks >= d {
            let from = ticks - d;
            lemma_split_frame(from, p);
            let qf = from / p;
            let rf = from % p;
            let c = div_ceil(from, p) * p;
            vstd::arithmetic::div_mod::lemma_small_mod(c as nat, (usize::MAX + 1) as nat);
            assert(t == c + d);
            assert(t % p == d) by {
                if rf == 0 {
                    lemma_frame_in_cycle(qf, p, d);
                } else {
                    assert(c == (qf + 1) * p) by (nonlinear_arith)
                        requires
                            c == qf * p + p,
                    ;
                    lemma_frame_in_cycle(qf + 1, p, d);
                }
            }
            if blink.blinked_at(ticks as int) != blinked {
                assert(rt < d);
                assert(qt >= 1) by {
                    if qt == 0 {
                        assert(ticks == rt);
                    }
                }
                lemma_frame_in_cycle(qt - 1, p, p + rt - d);
                assert(from == (qt - 1) * p + (p + rt - d)) by (nonlinear_arith)
                    requires
                        from == ticks - d,
                        ticks == qt * p + rt,
                ;
                assert(qf == qt - 1 && rf == p + rt - d);
                assert(t == qt * p + d) by (nonlinear_arith)
                    requires
                        t == c + d,
                        c == qf * p + p,
                        qf == qt - 1,
                ;
                assert forall|i: int| ticks <= i < t implies #[trigger] blink.blinked_at(i)
                    != blinked by {
                    lemma_frame_in_cycle(qt, p, i - qt * p);
                }
            }
        } else {
            assert(t == d) by {
                vstd::arithmetic::div_mod::lemma_small_mod(0, p as nat);
                vstd::arithmetic::div_mod::lemma_small_mod(0, (usize::MAX + 1) as nat);
                assert(0int / p == 0) by (nonlinear_arith)
                    requires
                        p > 0,
                ;
                assert(div_ceil(0, p) == 0);
                assert(div_ceil(0, p) * p == 0) by (nonlinear_arith)
                    requires
                        div_ceil(0, p) == 0,
                ;
            }
            assert forall|i: int| ticks <= i < t implies #[trigger] blink.blinked_at(i)
                != blinked by {
                vstd::arithmetic::div_mod::lemma_small_mod(i as nat, p as nat);
            }
        }
    }
}

/// Advancing the cursor animation to a _blinked_ state fails exactly when no frame of the
/// animation cycle has that state; a cursor that is solid on has _blinked_ in every frame.
pub proof fn advance_fails_iff_state_absent(blink: Blink, ticks: usize, blinked: bool)
    ensures
        advanced_ticks(blink, ticks, blinked) is None <==> (forall|i: int|
            0 <= i ==> #[trigger] blink.blinked_at(i) != blinked),
{
    next_phase_fails_iff_state_absent(blink, ticks, blinked);
}

/// Advancing the cursor animation to a _blinked_ state that some frame has stops at the first
/// frame from the current one that has the state: the current frame itself when it has it, and
/// otherwise less than one cycle ahead, with no frame in between having the state.
pub proof fn advance_reaches_state(blink: Blink, ticks: usize, blinked: bool)
    requires
        advanced_ticks(blink, ticks, blinked) is Some,
        blink.delay() + blink.hidden() <= usize::MAX,
        blink.blinked_at(ticks as int) != blinked ==> advance_without_wrap(blink, ticks, blinked),
    ensures
        ({
            let t = advanced_ticks(blink, ticks, blinked).unwrap() as int;
            let p = blink.delay() + blink.hidden();
            &&& blink.blinked_at(t) == blinked
            &&& ticks <= t
            &&& p > 0 ==> t < ticks + p
            &&& forall|i: int| ticks <= i < t ==> #[trigger] blink.blinked_at(i) != blinked
        }),
{
    if blink.blinked_at(ticks as int) != blinked {
        next_phase_reaches_state(blink, ticks, blinked);
    }
}

/// A call on the cursor layer, as far as the visibility of the cursor goes: showing it, hiding it,
/// or any other call (drawing, clearing, moving the cursor, advancing or configuring it).
#[derive(Debug, Clone, Copy, PartialEq, Eq, Structural)]
pub enum CursorCall {
    /// [`CursorWrapper::show_cursor`].
    Show,
    /// [`CursorWrapper::hide_cursor`].
    Hide,
    /// Any other call, each of which keeps whether the cursor is hidden.
    Other,
}

/// Whether the cursor is hidden after a call: hiding hides it, showing shows it, and every other
/// call keeps it as it was.
pub open spec fn hidden_after(hidden: bool, call: CursorCall) -> bool {
    match call {
        CursorCall::Show => false,
        CursorCall::Hide => true,
        CursorCall::Other => hidden,
    }
}

/// Whether the cursor is hidden after a run of calls.
pub open spec fn hidden_after_calls(hidden: bool, calls: Seq<CursorCall>) -> bool
    decreases calls.len(),
{
    if calls.len() == 0 {
        hidden
    } else {
        hidden_after(hidden_after_calls(hidden, calls.drop_last()), calls.last())
    }
}

/// A hidden cursor stays hidden through every run of calls that does not show it; and while it is
/// hidden, no call has it drawn: [`CursorWrapper::cursor_draws`], [`CursorWrapper::clear_cache`],
/// and [`CursorWrapper::clear_region`] hand out no cell to draw the cursor over.
pub proof fn hidden_cursor_stays_undrawn(calls: Seq<CursorCall>, n: int)
    requires
        forall|i: int| 0 <= i < calls.len() ==> calls[i] != CursorCall::Show,
        0 <= n <= calls.len(),
    ensures
        hidden_after_calls(true, calls.take(n)),
    decreases n,
{
    if n > 0 {
        hidden_cursor_stays_undrawn(calls, n - 1);
        assert(calls.take(n).drop_last() =~= calls.take(n - 1));
    }
}

} // verus!
