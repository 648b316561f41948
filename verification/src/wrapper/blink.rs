//! The layer that animates blinking text: cells set to blink are cached until content without
//! blinking is drawn at their positions, and are redrawn, visible or hidden, whenever their
//! blinking animation changes state.

pub mod cache;
pub mod state;

use vstd::prelude::*;

use self::cache::{covered, CacheItem, CacheKey};
use self::state::State;
use super::Wrapper;
use crate::blink::{tick_after, Blink, ControlBlinking};
use crate::buffer::{display_width, Cell};
use crate::style::{Modifier, RAPID_BLINK, SLOW_BLINK};

verus! {

/// The bits of the blink modifiers.
pub open spec fn blink_bits() -> u16 {
    SLOW_BLINK | RAPID_BLINK
}

/// The blink modifiers that a cell has.
pub open spec fn blink_flags(cell: Cell) -> u16 {
    cell.modifier.bits & blink_bits()
}

/// The frame before frame `ticks`, wrapping around.
pub open spec fn previous_tick(ticks: usize) -> usize {
    if ticks == 0 {
        usize::MAX
    } else {
        (ticks - 1) as usize
    }
}

/// The cache after drawing one cell: a cell that is set to blink is cached at its position,
/// removing the cells that it covers to its right, and any other cell removes the cached cell at
/// its position.
pub open spec fn cache_step(
    m: Map<CacheKey, CacheItem>,
    x: u16,
    y: u16,
    cell: Cell,
    ticks: usize,
) -> Map<CacheKey, CacheItem> {
    let key = CacheKey { x, y };
    if blink_flags(cell) != 0 {
        let start = if m.contains_key(key) {
            display_width(m[key].cell.symbol@) as int
        } else {
            1
        };
        let end = display_width(cell.symbol@) as int;
        m.insert(key, CacheItem { key, cell, tickstamp: ticks }).remove_keys(
            Set::new(|k: CacheKey| covered(key, start, end, k)),
        )
    } else {
        m.remove(key)
    }
}

/// The cache after drawing a sequence of cells in order.
pub open spec fn cache_steps(
    m: Map<CacheKey, CacheItem>,
    content: Seq<(u16, u16, Cell)>,
    ticks: usize,
) -> Map<CacheKey, CacheItem>
    decreases content.len(),
{
    if content.len() == 0 {
        m
    } else {
        let last = content.last();
        cache_step(cache_steps(m, content.drop_last(), ticks), last.0, last.1, last.2, ticks)
    }
}

/// The cells of a sequence that are not set to blink, in order.
pub open spec fn steady(content: Seq<(u16, u16, Cell)>) -> Seq<(u16, u16, Cell)> {
    content.filter(|e: (u16, u16, Cell)| blink_flags(e.2) == 0)
}

/// The blink modifiers of the three kinds of blinking: slow only, rapid only, and both, which
/// blinks when both animations have _blinked_.
pub open spec fn class_flags(class: int) -> u16 {
    if class == 0 {
        SLOW_BLINK
    } else if class == 1 {
        RAPID_BLINK
    } else {
        blink_bits()
    }
}

/// Whether text of a kind of blinking has _blinked_ in frame `ticks`.
pub open spec fn class_blinked(slow: Blink, rapid: Blink, class: int, ticks: usize) -> bool {
    if class == 0 {
        slow.blinked_at(ticks as int)
    } else if class == 1 {
        rapid.blinked_at(ticks as int)
    } else {
        slow.blinked_at(ticks as int) && rapid.blinked_at(ticks as int)
    }
}

/// The cache of the blink layer holds only cells set to blink, each at its own position: drawing
/// content keeps it that way, and drawing a cell that is not set to blink evicts its position.
pub proof fn cache_holds_only_blinking_cells(
    m: Map<CacheKey, CacheItem>,
    content: Seq<(u16, u16, Cell)>,
    ticks: usize,
)
    requires
        forall|k: CacheKey| #[trigger] m.contains_key(k) ==> blink_flags(m[k].cell) != 0 && m[k].key == k,
    ensures
        forall|k: CacheKey| #[trigger]
            cache_steps(m, content, ticks).contains_key(k) ==> blink_flags(
                cache_steps(m, content, ticks)[k].cell,
            ) != 0 && cache_steps(m, content, ticks)[k].key == k,
        content.len() > 0 && blink_flags(content.last().2) == 0 ==> !cache_steps(
            m,
            content,
            ticks,
        ).contains_key(CacheKey { x: content.last().0, y: content.last().1 }),
    decreases content.len(),
{
    if content.len() > 0 {
        cache_holds_only_blinking_cells(m, content.drop_last(), ticks);
    }
}

/// Whether a cached cell of a kind of blinking is redrawn: it has the modifiers of that kind, and
/// either the animation has changed or the cell was cached in frame `ticks`.
pub open spec fn selected(item: CacheItem, class: int, changed: bool, ticks: usize) -> bool {
    blink_flags(item.cell) == class_flags(class) && (changed || item.tickstamp == ticks)
}

/// A cached cell with its position, as drawn.
pub open spec fn entry(item: CacheItem) -> (u16, u16, Cell) {
    (item.key.x, item.key.y, item.cell)
}

/// A cached cell that a batch selects is drawn in it.
proof fn selected_item_is_drawn(items: Seq<CacheItem>, p: spec_fn(CacheItem) -> bool, i: int)
    requires
        0 <= i < items.len(),
        p(items[i]),
    ensures
        items.filter(p).map_values(|item: CacheItem| entry(item)).contains(entry(items[i])),
{
    items.lemma_filter_contains(p, i);
    let f = items.filter(p);
    let j = choose|j: int| 0 <= j < f.len() && f[j] == items[i];
    assert(f.map_values(|item: CacheItem| entry(item))[j] == entry(items[i]));
}

/// Every cell drawn in a batch is a cached cell that the batch selects.
proof fn drawn_cell_is_selected(items: Seq<CacheItem>, p: spec_fn(CacheItem) -> bool, k: int)
    requires
        0 <= k < items.filter(p).map_values(|item: CacheItem| entry(item)).len(),
    ensures
        p(items.filter(p)[k]),
        items.filter(p).map_values(|item: CacheItem| entry(item))[k] == entry(items.filter(p)[k]),
{
    items.lemma_filter_pred(p, k);
}

/// A batch of cells to redraw, either hidden or visible.
#[derive(Debug)]
pub struct Redraw {
    /// Whether the cells are drawn hidden, having _blinked_.
    pub hidden: bool,
    /// The cells with their positions.
    pub content: Vec<(u16, u16, Cell)>,
}

/// Wrapper that is required in order for text that has slow or rapid blink modifiers added to its
/// style to appear to be blinking, driving the animation by redrawing cells that are stored in a
/// cache until new content with intersecting positions and without blinking are drawn.
#[derive(Debug)]
pub struct BlinkWrapper<B> {
    backend: B,
    slow_blink: Blink,
    rapid_blink: Blink,
    state: State,
}

/// Backend configuration retrieval and modification of the [`BlinkWrapper`] layer.
pub trait ConfigureBlinkWrapper {
    /// Returns the blink animation cycle for slow blinking.
    fn slow_blink(&self) -> Blink;

    /// Sets the blink animation cycle for slow blinking.
    fn set_slow_blink(&mut self, slow_blink: Blink);

    /// Returns the blink animation cycle for rapid blinking.
    fn rapid_blink(&self) -> Blink;

    /// Sets the blink animation cycle for rapid blinking.
    fn set_rapid_blink(&mut self, rapid_blink: Blink);
}

impl<B> BlinkWrapper<B> {
    /// The wrapped backend.
    pub closed spec fn backend(&self) -> B {
        self.backend
    }

    /// The slow blinking animation cycle.
    pub closed spec fn slow(&self) -> Blink {
        self.slow_blink
    }

    /// The rapid blinking animation cycle.
    pub closed spec fn rapid(&self) -> Blink {
        self.rapid_blink
    }

    /// The frame count.
    pub closed spec fn ticks(&self) -> usize {
        self.state.ticks
    }

    /// Whether drawing advances the animations.
    pub closed spec fn is_blinking(&self) -> bool {
        self.state.blinking
    }

    /// The cached cells, in order of position.
    pub closed spec fn cached_items(&self) -> Seq<CacheItem> {
        self.state.cache.items()
    }

    /// The cached cells by position.
    pub closed spec fn cached(&self) -> Map<CacheKey, CacheItem> {
        self.state.cache@
    }

    /// Creates a new wrapper around the specified backend, configuring the slow and rapid blinking
    /// animation cycles.
    pub fn new(backend: B, slow_blink: Blink, rapid_blink: Blink) -> (r: Self)
        ensures
            r.backend() == backend,
            r.slow() == slow_blink,
            r.rapid() == rapid_blink,
            r.ticks() == 0,
            !r.is_blinking(),
            r.cached_items().len() == 0,
            r.cached() == Map::<CacheKey, CacheItem>::empty(),
    {
        BlinkWrapper { backend, slow_blink, rapid_blink, state: State::new() }
    }

    /// Takes the content that is to be drawn, updating the cache: a cell set to blink is cached,
    /// while any other cell evicts the cached cell at its position. Returns the cells that are not
    /// set to blink, in order, which are the ones to draw right away.
    pub fn cache_content(&mut self, content: Vec<(u16, u16, Cell)>) -> (r: Vec<(u16, u16, Cell)>)
        ensures
            final(self).cached() == cache_steps(old(self).cached(), content@, old(self).ticks()),
            r@ == steady(content@),
            final(self).backend() == old(self).backend(),
            final(self).slow() == old(self).slow(),
            final(self).rapid() == old(self).rapid(),
            final(self).ticks() == old(self).ticks(),
            final(self).is_blinking() == old(self).is_blinking(),
    {
        let ticks = self.state.ticks;
        let mut cache = cache::Cache::new();
        std::mem::swap(&mut cache, &mut self.state.cache);
        let mut steady_cells: Vec<(u16, u16, Cell)> = Vec::new();
        let mut content = content;
        let ghost all = content@;
        let mut remaining: Vec<(u16, u16, Cell)> = Vec::new();
        let n = content.len();
        let mut i: usize = 0;
        // Take the entries out in order by reversing them first.
        while content.len() > 0
            invariant
                remaining@.len() + content@.len() == all.len(),
                content@ == all.take(content@.len() as int),
                forall|j: int|
                    0 <= j < remaining@.len() ==> #[trigger] remaining@[j] == all[all.len() - 1
                        - j],
            decreases content.len(),
        {
            let e = content.pop().unwrap();
            remaining.push(e);
            proof {
                assert(content@ =~= all.take(content@.len() as int));
            }
        }
        while remaining.len() > 0
            invariant
                0 <= i <= n,
                n == all.len(),
                remaining@.len() == n - i,
                forall|j: int|
                    0 <= j < remaining@.len() ==> #[trigger] remaining@[j] == all[n - 1 - j],
                self.state.ticks == ticks,
                cache@ == cache_steps(old(self).cached(), all.take(i as int), ticks),
                steady_cells@ == steady(all.take(i as int)),
                self.backend == old(self).backend,
                self.slow_blink == old(self).slow_blink,
                self.rapid_blink == old(self).rapid_blink,
                self.state.blinking == old(self).state.blinking,
            decreases remaining.len(),
        {
            let (x, y, cell) = remaining.pop().unwrap();
            proof {
                assert((x, y, cell) == all[i as int]);
                assert(all.take(i + 1).drop_last() =~= all.take(i as int));
                assert(all.take(i + 1).last() == all[i as int]);
                reveal_with_fuel(Seq::filter, 1);
            }
            let key = CacheKey::new(x, y);
            if cell.modifier.intersects(Modifier { bits: SLOW_BLINK | RAPID_BLINK }) {
                let _ = cache.insert_or_replace(key, cell, ticks);
            } else {
                let _ = cache.remove(&key);
                steady_cells.push((x, y, cell));
            }
            i = i + 1;
        }
        proof {
            assert(all.take(n as int) =~= all);
        }
        self.state.cache = cache;
        steady_cells
    }

    /// Returns the cached cells to redraw for the current frame, in three batches, one for each
    /// kind of blinking (slow, rapid, and both): the cells of a kind are redrawn when its blinking
    /// animation has changed since the previous frame, or when they were cached in this frame, and
    /// they are drawn hidden when the animation has _blinked_.
    pub fn redraws(&self) -> (r: Vec<Redraw>)
        ensures
            r@.len() == 3,
            forall|class: int|
                0 <= class < 3 ==> {
                    let changed = class_blinked(self.slow(), self.rapid(), class, self.ticks())
                        != class_blinked(
                        self.slow(),
                        self.rapid(),
                        class,
                        previous_tick(self.ticks()),
                    );
                    &&& (#[trigger] r@[class]).hidden == class_blinked(
                        self.slow(),
                        self.rapid(),
                        class,
                        self.ticks(),
                    )
                    &&& r@[class].content@ == self.cached_items().filter(
                        |item: CacheItem| selected(item, class, changed, self.ticks()),
                    ).map_values(|item: CacheItem| entry(item))
                },
            r@[0].hidden == self.slow().blinked_at(self.ticks() as int),
            r@[1].hidden == self.rapid().blinked_at(self.ticks() as int),
            r@[2].hidden == (self.slow().blinked_at(self.ticks() as int) && self.rapid().blinked_at(
                self.ticks() as int,
            )),
            forall|i: int|
                0 <= i < self.cached_items().len() ==> {
                    let item = #[trigger] self.cached_items()[i];
                    let bits = item.cell.modifier.bits & (SLOW_BLINK | RAPID_BLINK);
                    let now = self.ticks() as int;
                    let before = previous_tick(self.ticks()) as int;
                    let fresh = item.tickstamp == self.ticks();
                    let slow_changed = self.slow().blinked_at(now) != self.slow().blinked_at(before);
                    let rapid_changed = self.rapid().blinked_at(now) != self.rapid().blinked_at(
                        before,
                    );
                    let both_changed = (self.slow().blinked_at(now) && self.rapid().blinked_at(now))
                        != (self.slow().blinked_at(before) && self.rapid().blinked_at(before));
                    let drawn = (item.key.x, item.key.y, item.cell);
                    &&& bits == SLOW_BLINK && (fresh || slow_changed) ==> r@[0].content@.contains(
                        drawn,
                    )
                    &&& bits == RAPID_BLINK && (fresh || rapid_changed) ==> r@[1].content@.contains(
                        drawn,
                    )
                    &&& bits == (SLOW_BLINK | RAPID_BLINK) && (fresh || both_changed)
                        ==> r@[2].content@.contains(drawn)
                },
            forall|k: int|
                0 <= k < r@[0].content@.len() ==> (#[trigger] r@[0].content@[k]).2.modifier.bits & (
                SLOW_BLINK | RAPID_BLINK) == SLOW_BLINK,
            forall|k: int|
                0 <= k < r@[1].content@.len() ==> (#[trigger] r@[1].content@[k]).2.modifier.bits & (
                SLOW_BLINK | RAPID_BLINK) == RAPID_BLINK,
            forall|k: int|
                0 <= k < r@[2].content@.len() ==> (#[trigger] r@[2].content@[k]).2.modifier.bits & (
                SLOW_BLINK | RAPID_BLINK) == (SLOW_BLINK | RAPID_BLINK),
    {
        let ticks = self.state.ticks;
        let previous = ticks.wrapping_sub(1);
        let slow = self.slow_blink.get(ticks);
        let rapid = self.rapid_blink.get(ticks);
        let previous_slow = self.slow_blink.get(previous);
        let previous_rapid = self.rapid_blink.get(previous);
        let mut batches: Vec<Redraw> = Vec::new();
        let mut class: usize = 0;
        while class < 3
            invariant
                class <= 3,
                batches@.len() == class,
                ticks == self.state.ticks,
                previous == previous_tick(ticks),
                slow.0 == self.slow_blink.blinked_at(ticks as int),
                rapid.0 == self.rapid_blink.blinked_at(ticks as int),
                previous_slow.0 == self.slow_blink.blinked_at(previous as int),
                previous_rapid.0 == self.rapid_blink.blinked_at(previous as int),
                forall|c: int|
                    0 <= c < class ==> {
                        let changed = class_blinked(self.slow(), self.rapid(), c, self.ticks())
                            != class_blinked(
                            self.slow(),
                            self.rapid(),
                            c,
                            previous_tick(self.ticks()),
                        );
                        &&& (#[trigger] batches@[c]).hidden == class_blinked(
                            self.slow(),
                            self.rapid(),
                            c,
                            self.ticks(),
                        )
                        &&& batches@[c].content@ == self.cached_items().filter(
                            |item: CacheItem| selected(item, c, changed, self.ticks()),
                        ).map_values(|item: CacheItem| entry(item))
                    },
            decreases 3 - class,
        {
            let (flags, blinked, previous_blinked) = if class == 0 {
                (SLOW_BLINK, slow.0, previous_slow.0)
            } else if class == 1 {
                (RAPID_BLINK, rapid.0, previous_rapid.0)
            } else {
                (SLOW_BLINK | RAPID_BLINK, slow.0 && rapid.0, previous_slow.0 && previous_rapid.0)
            };
            let changed = blinked != previous_blinked;
            let items = &self.state.cache;
            let mut content: Vec<(u16, u16, Cell)> = Vec::new();
            let mut j: usize = 0;
            let n = items.len();
            while j < n
                invariant
                    j <= n,
                    n == self.cached_items().len(),
                    items == &self.state.cache,
                    flags == class_flags(class as int),
                    ticks == self.state.ticks,
                    content@ == self.cached_items().take(j as int).filter(|item: CacheItem| selected(item, class as int, changed, ticks)).map_values(|item: CacheItem| entry(item)),
                decreases n - j,
            {
                let item = items.at(j);
                proof {
                    assert(self.cached_items().take(j + 1).drop_last() =~= self.cached_items().take(
                        j as int,
                    ));
                    reveal_with_fuel(Seq::filter, 1);
                    assert(self.cached_items().take(j + 1).last() == *item);
                    assert(flags == class_flags(class as int));

                    assert(self.cached_items().take(j + 1).filter(|item: CacheItem| selected(item, class as int, changed, ticks)) == self.cached_items().take(
                        j as int,
                    ).filter(|item: CacheItem| selected(item, class as int, changed, ticks)) + if selected(*item, class as int, changed, ticks) {
                        seq![*item]
                    } else {
                        Seq::empty()
                    });
                }
                if item.cell.modifier.bits & (SLOW_BLINK | RAPID_BLINK) == flags && (changed
                    || item.tickstamp == ticks) {
                    content.push((item.key.x, item.key.y, item.cell.clone()));
                    proof {
                        assert(content@ =~= self.cached_items().take(j + 1).filter(|item: CacheItem| selected(item, class as int, changed, ticks)).map_values(
                            |item: CacheItem| entry(item),
                        ));
                    }
                } else {
                    proof {
                        assert(content@ =~= self.cached_items().take(j + 1).filter(|item: CacheItem| selected(item, class as int, changed, ticks)).map_values(
                            |item: CacheItem| entry(item),
                        ));
                    }
                }
                j = j + 1;
            }
            proof {
                assert(self.cached_items().take(n as int) =~= self.cached_items());
            }
            batches.push(Redraw { hidden: blinked, content });
            class = class + 1;
        }
        proof {
            let t = self.ticks();
            let items = self.cached_items();
            let c0 = class_blinked(self.slow(), self.rapid(), 0, t) != class_blinked(
                self.slow(),
                self.rapid(),
                0,
                previous_tick(t),
            );
            let c1 = class_blinked(self.slow(), self.rapid(), 1, t) != class_blinked(
                self.slow(),
                self.rapid(),
                1,
                previous_tick(t),
            );
            let c2 = class_blinked(self.slow(), self.rapid(), 2, t) != class_blinked(
                self.slow(),
                self.rapid(),
                2,
                previous_tick(t),
            );
            let p0 = |item: CacheItem| selected(item, 0, c0, t);
            let p1 = |item: CacheItem| selected(item, 1, c1, t);
            let p2 = |item: CacheItem| selected(item, 2, c2, t);
            assert(batches@[0].content@ == items.filter(p0).map_values(
                |item: CacheItem| entry(item),
            ));
            assert(batches@[1].content@ == items.filter(p1).map_values(
                |item: CacheItem| entry(item),
            ));
            assert(batches@[2].content@ == items.filter(p2).map_values(
                |item: CacheItem| entry(item),
            ));
            assert forall|i: int| 0 <= i < items.len() implies {
                let item = #[trigger] items[i];
                let bits = item.cell.modifier.bits & (SLOW_BLINK | RAPID_BLINK);
                let fresh = item.tickstamp == t;
                let drawn = (item.key.x, item.key.y, item.cell);
                &&& bits == SLOW_BLINK && (fresh || c0) ==> batches@[0].content@.contains(drawn)
                &&& bits == RAPID_BLINK && (fresh || c1) ==> batches@[1].content@.contains(drawn)
                &&& bits == (SLOW_BLINK | RAPID_BLINK) && (fresh || c2)
                    ==> batches@[2].content@.contains(drawn)
            } by {
                if p0(items[i]) {
                    selected_item_is_drawn(items, p0, i);
                }
                if p1(items[i]) {
                    selected_item_is_drawn(items, p1, i);
                }
                if p2(items[i]) {
                    selected_item_is_drawn(items, p2, i);
                }
            }
            assert forall|k: int| 0 <= k < batches@[0].content@.len() implies (
            #[trigger] batches@[0].content@[k]).2.modifier.bits & (SLOW_BLINK | RAPID_BLINK)
                == SLOW_BLINK by {
                drawn_cell_is_selected(items, p0, k);
            }
            assert forall|k: int| 0 <= k < batches@[1].content@.len() implies (
            #[trigger] batches@[1].content@[k]).2.modifier.bits & (SLOW_BLINK | RAPID_BLINK)
                == RAPID_BLINK by {
                drawn_cell_is_selected(items, p1, k);
            }
            assert forall|k: int| 0 <= k < batches@[2].content@.len() implies (
            #[trigger] batches@[2].content@[k]).2.modifier.bits & (SLOW_BLINK | RAPID_BLINK) == (
            SLOW_BLINK | RAPID_BLINK) by {
                drawn_cell_is_selected(items, p2, k);
            }
        }
        batches
    }

    /// Ends a frame of drawing: advances the frame count by one when drawing drives the
    /// animations, and returns whether it did, so that the layers inside advance as well.
    pub fn end_frame(&mut self) -> (advanced: bool)
        ensures
            advanced == old(self).is_blinking(),
            final(self).ticks() == (if advanced {
                tick_after(old(self).ticks(), 1)
            } else {
                old(self).ticks()
            }),
            final(self).backend() == old(self).backend(),
            final(self).slow() == old(self).slow(),
            final(self).rapid() == old(self).rapid(),
            final(self).is_blinking() == old(self).is_blinking(),
            final(self).cached() == old(self).cached(),
            final(self).cached_items() == old(self).cached_items(),
    {
        if self.state.blinking {
            self.advance_blink_by(1);
            true
        } else {
            false
        }
    }

    /// Advances the frame count of the blinking animations, wrapping around.
    pub fn advance_blink_by(&mut self, ticks: usize)
        ensures
            final(self).ticks() == tick_after(old(self).ticks(), ticks),
            final(self).backend() == old(self).backend(),
            final(self).slow() == old(self).slow(),
            final(self).rapid() == old(self).rapid(),
            final(self).is_blinking() == old(self).is_blinking(),
            final(self).cached() == old(self).cached(),
            final(self).cached_items() == old(self).cached_items(),
    {
        self.state.ticks = self.state.ticks.wrapping_add(ticks);
    }
}

impl<B> ConfigureBlinkWrapper for BlinkWrapper<B> {
    fn slow_blink(&self) -> (r: Blink)
        ensures
            r == self.slow(),
    {
        self.slow_blink
    }

    fn set_slow_blink(&mut self, slow_blink: Blink)
        ensures
            final(self).slow() == slow_blink,
            final(self).rapid() == old(self).rapid(),
            final(self).backend() == old(self).backend(),
            final(self).ticks() == old(self).ticks(),
            final(self).is_blinking() == old(self).is_blinking(),
            final(self).cached() == old(self).cached(),
    {
        self.slow_blink = slow_blink;
    }

    fn rapid_blink(&self) -> (r: Blink)
        ensures
            r == self.rapid(),
    {
        self.rapid_blink
    }

    fn set_rapid_blink(&mut self, rapid_blink: Blink)
        ensures
            final(self).rapid() == rapid_blink,
            final(self).slow() == old(self).slow(),
            final(self).backend() == old(self).backend(),
            final(self).ticks() == old(self).ticks(),
            final(self).is_blinking() == old(self).is_blinking(),
            final(self).cached() == old(self).cached(),
    {
        self.rapid_blink = rapid_blink;
    }
}

impl<B> ControlBlinking for BlinkWrapper<B> {
    fn blinking(&self) -> (r: bool)
        ensures
            r == self.is_blinking(),
    {
        self.state.blinking
    }

    fn start_blinking(&mut self)
        ensures
            final(self).is_blinking(),
            final(self).ticks() == old(self).ticks(),
            final(self).cached() == old(self).cached(),
            final(self).backend() == old(self).backend(),
    {
        self.state.blinking = true;
    }

    fn stop_blinking(&mut self)
        ensures
            !final(self).is_blinking(),
            final(self).ticks() == old(self).ticks(),
            final(self).cached() == old(self).cached(),
            final(self).backend() == old(self).backend(),
    {
        self.state.blinking = false;
    }
}

impl<B> Wrapper for BlinkWrapper<B> {
    type Inner = B;

    fn inner(&self) -> (r: &B)
        ensures
            *r == self.backend(),
    {
        &self.backend
    }

    fn inner_mut(&mut self) -> (r: &mut B)
        ensures
            *r == old(self).backend(),
            final(self).backend() == *final(r),
            final(self).slow() == old(self).slow(),
            final(self).rapid() == old(self).rapid(),
            final(self).ticks() == old(self).ticks(),
            final(self).is_blinking() == old(self).is_blinking(),
            final(self).cached() == old(self).cached(),
    {
        &mut self.backend
    }

    fn into_inner(self) -> (r: B)
        ensures
            r == self.backend(),
    {
        self.backend
    }
}

} // verus!
