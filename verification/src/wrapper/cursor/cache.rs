//! Cache of the last known content of every cell position, for redrawing a cell once the cursor
//! leaves it.

use std::collections::BTreeMap;

use vstd::prelude::*;
use vstd::std_specs::cmp::OrdSpec;
use vstd::std_specs::iter::IteratorSpec;

use crate::buffer::{display_width, Cell};
use crate::layout::Position;

verus! {

broadcast use vstd::laws_cmp::group_laws_cmp;

/// Position of a cached cell: the column and the row.
#[derive(Debug, Clone, Copy, PartialEq, Eq, Structural, PartialOrd, Ord, Hash)]
pub struct CacheKey {
    /// The column.
    pub x: u16,
    /// The row.
    pub y: u16,
}

/// A cached cell.
#[derive(Debug)]
pub struct CacheItem(pub Cell);

/// Cache of cells by position, ordered by column and then by row.
#[derive(Debug)]
pub struct Cache {
    map: BTreeMap<(u16, u16), CacheItem>,
    empty: Cell,
}

/// The positions that a cell of width `end` at `key` covers to its right, from offset `start`.
pub open spec fn covered(key: CacheKey, start: int, end: int, k: CacheKey) -> bool {
    k.y == key.y && key.x + start <= k.x < key.x + end
}

/// Whether a cached cell at column `left` spans column `x`: its symbol is wide enough to reach
/// that column, and the column past its right edge is still a valid column.
pub open spec fn spans(cell: Cell, left: u16, x: u16) -> bool {
    let width = display_width(cell.symbol@);
    &&& left + width <= u16::MAX
    &&& left + width > x
}

/// Whether position `a` comes before position `b`: by column, and then by row.
pub open spec fn key_before(a: CacheKey, b: CacheKey) -> bool {
    a.x < b.x || (a.x == b.x && a.y < b.y)
}

/// The cell is an empty cell: a single space with the reset colors and no modifiers.
pub open spec fn empty_cell(cell: Cell) -> bool {
    &&& cell.symbol@ == seq![' ']
    &&& cell.fg == crate::style::Color::Reset
    &&& cell.bg == crate::style::Color::Reset
    &&& cell.underline_color == crate::style::Color::Reset
    &&& cell.modifier.bits == 0
}

/// The cell that spans a position, with its position: the cached cell at the position, or else a
/// cached cell one column to the left that is wide enough, or else an empty cell at the position.
pub open spec fn finds(m: Map<CacheKey, Cell>, position: Position, x: u16, y: u16, cell: Cell) -> bool {
    let here = CacheKey { x: position.x, y: position.y };
    let left = CacheKey { x: (position.x - 1) as u16, y: position.y };
    if m.contains_key(here) && spans(m[here], here.x, position.x) {
        x == here.x && y == here.y && cell == m[here]
    } else if position.x >= 1 && m.contains_key(left) && spans(m[left], left.x, position.x) {
        x == left.x && y == left.y && cell == m[left]
    } else {
        x == here.x && y == here.y && empty_cell(cell)
    }
}

/// Caching a cell and then looking up its position gives the cell back, unless the cell that was
/// cached there before it spanned no columns while the new one spans some; the positions that
/// the new cell covers to its right are emptied, and all other positions keep their content.
pub proof fn cached_cell_reads_back(
    m: Map<CacheKey, Cell>,
    key: CacheKey,
    cell: Cell,
    start: int,
    end: int,
    k: CacheKey,
)
    ensures
        ({
            let after = m.insert(key, cell).remove_keys(
                Set::new(|c: CacheKey| covered(key, start, end, c)),
            );
            &&& (start >= 1 || end <= 0) ==> after.contains_key(key) && after[key] == cell
            &&& covered(key, start, end, k) ==> !after.contains_key(k)
            &&& (k != key && !covered(key, start, end, k)) ==> after.contains_key(k)
                == m.contains_key(k) && (m.contains_key(k) ==> after[k] == m[k])
        }),
{
}

impl CacheKey {
    /// Creates a position.
    pub fn new(x: u16, y: u16) -> (r: Self)
        ensures
            r == (CacheKey { x, y }),
    {
        CacheKey { x, y }
    }
}

impl CacheItem {
    /// Creates a cached cell.
    pub fn new(cell: Cell) -> (r: Self)
        ensures
            r.0 == cell,
    {
        CacheItem(cell)
    }
}

impl Clone for CacheItem {
    fn clone(&self) -> (r: Self)
        ensures
            r == *self,
    {
        CacheItem(self.0.clone())
    }
}

impl Cache {
    /// The cached cells by position.
    pub closed spec fn view(&self) -> Map<CacheKey, Cell> {
        Map::new(
            |k: CacheKey| self.map@.contains_key((k.x, k.y)),
            |k: CacheKey| self.map@[(k.x, k.y)].0,
        )
    }

    /// The cell that stands for a position that has no cached content is an empty cell.
    pub closed spec fn wf(&self) -> bool {
        empty_cell(self.empty)
    }

    /// Every cache holds an empty cell for the positions that have no cached content.
    #[verifier::type_invariant]
    closed spec fn holds_empty_cell(self) -> bool {
        self.wf()
    }

    /// Creates an empty cache.
    pub fn new() -> (r: Self)
        ensures
            r@ == Map::<CacheKey, Cell>::empty(),
    {
        let r = Cache { map: BTreeMap::new(), empty: Cell::empty() };
        assert(r@ =~= Map::<CacheKey, Cell>::empty());
        r
    }

    /// Returns the cached item at a position.
    pub fn get(&self, key: &CacheKey) -> (r: Option<&CacheItem>)
        ensures
            match r {
                Some(item) => self@.contains_key(*key) && self@[*key] == item.0,
                None => !self@.contains_key(*key),
            },
    {
        self.map.get(&(key.x, key.y))
    }

    /// Removes and returns the cached item at a position.
    pub fn remove(&mut self, key: &CacheKey) -> (r: Option<CacheItem>)
        ensures
            final(self)@ == old(self)@.remove(*key),
            match r {
                Some(item) => old(self)@.contains_key(*key) && old(self)@[*key] == item.0,
                None => !old(self)@.contains_key(*key),
            },
    {
        proof {
            use_type_invariant(&*self);
        }
        let mut map: BTreeMap<(u16, u16), CacheItem> = BTreeMap::new();
        std::mem::swap(&mut map, &mut self.map);
        let r = map.remove(&(key.x, key.y));
        self.map = map;
        assert(self@ =~= old(self)@.remove(*key));
        r
    }

    /// Removes every cached cell.
    pub fn clear(&mut self)
        ensures
            final(self)@ == Map::<CacheKey, Cell>::empty(),
    {
        proof {
            use_type_invariant(&*self);
        }
        self.map = BTreeMap::new();
        assert(self@ =~= Map::<CacheKey, Cell>::empty());
    }

    /// Caches a cell at a position, replacing and returning the item previously cached there.
    ///
    /// A cell whose symbol is wider than one column covers the cells to its right, which are then
    /// removed from the cache; the columns that the previous item at the position already covered
    /// are not visited again.
    pub fn insert_or_replace(&mut self, key: CacheKey, cell: Cell) -> (r: Option<CacheItem>)
        ensures
            match r {
                Some(item) => old(self)@.contains_key(key) && old(self)@[key] == item.0,
                None => !old(self)@.contains_key(key),
            },
            ({
                let start = match r {
                    Some(item) => display_width(item.0.symbol@) as int,
                    None => 1,
                };
                let end = display_width(cell.symbol@) as int;
                final(self)@ == old(self)@.insert(key, cell).remove_keys(
                    Set::new(|k: CacheKey| covered(key, start, end, k)),
                )
            }),
    {
        proof {
            use_type_invariant(&*self);
        }
        let x = key.x;
        let y = key.y;
        let end = cell.width();
        let ghost new_cell = cell;
        let mut map: BTreeMap<(u16, u16), CacheItem> = BTreeMap::new();
        std::mem::swap(&mut map, &mut self.map);
        let previous = map.insert((x, y), CacheItem::new(cell));
        self.map = map;
        let start = match &previous {
            Some(item) => item.0.width(),
            None => 1,
        };
        let ghost inserted = self@;
        proof {
            assert(inserted =~= old(self)@.insert(key, new_cell));
            assert(inserted.remove_keys(Set::new(|k: CacheKey| covered(key, start as int, start as int, k)))
                =~= inserted);
        }
        let bound: usize = if end < 65536 {
            end
        } else {
            65536
        };
        let mut offset = start;
        while offset < bound
            invariant
                start <= offset <= bound || (offset == start && start >= bound),
                bound <= 65536,
                bound == (if end < 65536 { end } else { 65536 }),
                key.x == x,
                key.y == y,
                self@ == inserted.remove_keys(
                    Set::new(|k: CacheKey| covered(key, start as int, offset as int, k)),
                ),
            decreases bound - offset,
        {
            if let Some(right) = x.checked_add(offset as u16) {
                let _ = self.remove(&CacheKey::new(right, y));
            }
            proof {
                assert(self@ =~= inserted.remove_keys(
                    Set::new(|k: CacheKey| covered(key, start as int, offset + 1, k)),
                ));
            }
            offset = offset + 1;
        }
        proof {
            assert(self@ =~= inserted.remove_keys(
                Set::new(|k: CacheKey| covered(key, start as int, end as int, k)),
            ));
        }
        previous
    }

    /// Finds the cached cell that spans the specified position: the cell at that position, or else
    /// a cell one column to the left whose symbol is two or more columns wide; a position that no
    /// cached cell spans yields an empty cell at the position itself.
    pub fn find(&self, position: Position) -> (r: Option<(u16, u16, &Cell)>)
        ensures
            r matches Some((x, y, cell)) && finds(self@, position, x, y, *cell),
    {
        proof {
            use_type_invariant(self);
        }
        let x = position.x;
        let y = position.y;
        let mut x_offset: u16 = 0;
        while x_offset < 2
            invariant
                x == position.x,
                y == position.y,
                self.wf(),
                x_offset <= 2,
                x_offset >= 1 ==> !(self@.contains_key(CacheKey { x, y }) && spans(
                    self@[CacheKey { x, y }],
                    x,
                    x,
                )),
                x_offset >= 2 ==> !(x >= 1 && self@.contains_key(
                    CacheKey { x: (x - 1) as u16, y },
                ) && spans(self@[CacheKey { x: (x - 1) as u16, y }], (x - 1) as u16, x)),
            decreases 2 - x_offset,
        {
            if x >= x_offset {
                let left = x - x_offset;
                let key = CacheKey::new(left, y);
                if let Some(item) = self.get(&key) {
                    let width = item.0.width();
                    if width <= u16::MAX as usize {
                        let offset = width as u16;
                        if let Some(sum) = left.checked_add(offset) {
                            if sum > x {
                                return Some((left, y, &item.0));
                            }
                        }
                    }
                }
            }
            x_offset = x_offset + 1;
        }
        Some((x, y, &self.empty))
    }

    /// Lists the cached positions, ordered by column and then by row.
    fn positions(&self) -> (r: Vec<(u16, u16)>)
        ensures
            r@.to_set() == self.map@.dom(),
            r@.len() == self.map@.dom().len(),
            forall|i: int, j: int|
                0 <= i < j < r@.len() ==> key_before(
                    CacheKey { x: r@[i].0, y: r@[i].1 },
                    CacheKey { x: r@[j].0, y: r@[j].1 },
                ),
    {
        let mut keys: Vec<(u16, u16)> = Vec::new();
        proof {
            broadcast use vstd::std_specs::btree::axiom_spec_keys_iter;
            broadcast use vstd::std_specs::btree::axiom_key_obeys_cmp_spec_meaning;
        }
        let ghost expected = vstd::std_specs::btree::spec_keys_iter(&self.map).remaining();
        for k in it: self.map.keys()
            invariant
                it.seq() == expected,
                keys@ == it.seq().take(it.index()).map_values(|r: &(u16, u16)| *r),
        {
            keys.push(*k);
        }
        proof {
            broadcast use vstd::std_specs::btree::axiom_increasing_seq_meaning;
            assert(vstd::laws_cmp::obeys_cmp::<u16>());
            assert(vstd::laws_cmp::obeys_cmp::<(u16, u16)>());
            assert(vstd::laws_cmp::obeys_cmp::<&(u16, u16)>());
            assert(vstd::std_specs::btree::increasing_seq(expected));
            assert(keys@.len() == expected.len());
            assert(keys@ =~= expected.map_values(|r: &(u16, u16)| *r));
            assert(keys@ =~= expected.unref());
            assert(keys@.to_set() =~= self.map@.dom());
            assert forall|i: int, j: int| 0 <= i < j < keys@.len() implies key_before(
                CacheKey { x: keys@[i].0, y: keys@[i].1 },
                CacheKey { x: keys@[j].0, y: keys@[j].1 },
            ) by {
                assert(OrdSpec::cmp_spec(&expected[i], &expected[j]) is Less);
            }
        }
        keys
    }

    /// Lists the cached cells with their positions, ordered by column and then by row.
    pub fn iter(&self) -> (r: Vec<(CacheKey, &CacheItem)>)
        ensures
            r@.len() == self@.dom().len(),
            forall|i: int|
                0 <= i < r@.len() ==> self@.contains_key(#[trigger] r@[i].0) && self@[r@[i].0]
                    == r@[i].1.0,
            forall|k: CacheKey|
                #[trigger] self@.contains_key(k) ==> exists|i: int|
                    0 <= i < r@.len() && r@[i].0 == k,
            forall|i: int, j: int| 0 <= i < j < r@.len() ==> key_before(r@[i].0, r@[j].0),
    {
        let keys = self.positions();
        let mut items: Vec<(CacheKey, &CacheItem)> = Vec::new();
        let mut i: usize = 0;
        while i < keys.len()
            invariant
                i <= keys.len(),
                items@.len() == i,
                keys@.to_set() == self.map@.dom(),
                forall|j: int|
                    0 <= j < i ==> items@[j].0 == (CacheKey { x: keys@[j].0, y: keys@[j].1 })
                        && self.map@.contains_key(keys@[j]) && self.map@[keys@[j]] == *items@[j].1,
            decreases keys.len() - i,
        {
            let (x, y) = keys[i];
            assert(keys@.to_set().contains(keys@[i as int]));
            match self.map.get(&(x, y)) {
                Some(item) => {
                    items.push((CacheKey::new(x, y), item));
                },
                None => {
                    assert(false);
                },
            }
            i = i + 1;
        }
        proof {
            assert(self@.dom().len() == self.map@.dom().len()) by {
                assert(self@.dom() =~= self.map@.dom().map(|p: (u16, u16)| CacheKey { x: p.0, y: p.1 }));
                vstd::set_lib::lemma_map_size(
                    self.map@.dom(),
                    self@.dom(),
                    |p: (u16, u16)| CacheKey { x: p.0, y: p.1 },
                );
            }
            assert forall|k: CacheKey| #[trigger] self@.contains_key(k) implies exists|i: int|
                0 <= i < items@.len() && items@[i].0 == k by {
                assert(keys@.to_set().contains((k.x, k.y)));
                let j = choose|j: int| 0 <= j < keys@.len() && keys@[j] == (k.x, k.y);
                assert(items@[j].0 == k);
            }
        }
        items
    }

    /// Keeps only the cached cells whose positions the predicate `f` holds for.
    pub fn retain(&mut self, f: impl Fn(CacheKey) -> bool)
        requires
            forall|k: CacheKey| #[trigger] f.requires((k,)),
        ensures
            forall|k: CacheKey| #[trigger]
                final(self)@.contains_key(k) ==> old(self)@.contains_key(k) && final(self)@[k]
                    == old(self)@[k] && f.ensures((k,), true),
            forall|k: CacheKey|
                #[trigger] old(self)@.contains_key(k) && !final(self)@.contains_key(k) ==> f.ensures(
                    (k,),
                    false,
                ),
    {
        let keys = self.positions();
        let ghost all_keys = keys@;
        let mut i: usize = 0;
        while i < keys.len()
            invariant
                keys@ == all_keys,
                i <= keys.len(),
                forall|k: CacheKey| #[trigger] f.requires((k,)),
                forall|k: CacheKey| #[trigger]
                    self@.contains_key(k) ==> old(self)@.contains_key(k) && self@[k] == old(
                        self,
                    )@[k],
                forall|k: CacheKey| #[trigger]
                    self@.contains_key(k) && all_keys.take(i as int).contains((k.x, k.y))
                        ==> f.ensures((k,), true),
                forall|k: CacheKey| #[trigger]
                    old(self)@.contains_key(k) && !self@.contains_key(k) ==> f.ensures((k,), false),
                forall|k: CacheKey| #[trigger]
                    old(self)@.contains_key(k) && !all_keys.take(i as int).contains((k.x, k.y))
                        ==> self@.contains_key(k),
                all_keys.to_set() =~= old(self).map@.dom(),
            decreases keys.len() - i,
        {
            let (x, y) = keys[i];
            let key = CacheKey::new(x, y);
            if !f(key) {
                let _ = self.remove(&key);
            }
            proof {
                let prefix = all_keys.take(i as int);
                assert(all_keys.take(i + 1) =~= prefix.push((x, y)));
                assert forall|k: CacheKey| #[trigger]
                    old(self)@.contains_key(k) && !all_keys.take(i + 1).contains((k.x, k.y))
                        implies self@.contains_key(k) by {
                    if prefix.contains((k.x, k.y)) {
                        let j = choose|j: int| 0 <= j < prefix.len() && prefix[j] == (k.x, k.y);
                        assert(all_keys.take(i + 1)[j] == (k.x, k.y));
                    }
                    assert(all_keys.take(i + 1)[i as int] == (x, y));
                }
            }
            i = i + 1;
        }
        proof {
            assert(all_keys.take(keys@.len() as int) =~= all_keys);
            assert forall|k: CacheKey| #[trigger] old(self)@.contains_key(k) implies all_keys.contains(
                (k.x, k.y),
            ) by {
                assert(all_keys.to_set().contains((k.x, k.y)));
            }
        }
    }
}

impl Default for Cache {
    fn default() -> (r: Self)
        ensures
            r@ == Map::<CacheKey, Cell>::empty(),
    {
        Self::new()
    }
}

} // verus!
