//! Cache of the cells that are set to blink, kept in a vector sorted by position.

use vstd::prelude::*;

use vstd::std_specs::iter::IteratorSpec;

use crate::buffer::{display_width, Cell};
use crate::layout::Position;

verus! {

/// Position of a cached cell: the column and the row.
#[derive(Debug, Clone, Copy, PartialEq, Eq, Structural, PartialOrd, Ord, Hash)]
pub struct CacheKey {
    /// The column.
    pub x: u16,
    /// The row.
    pub y: u16,
}

/// A cached cell with its position and the frame count at which it was cached.
#[derive(Debug)]
pub struct CacheItem {
    /// The position of the cell.
    pub key: CacheKey,
    /// The content of the cell.
    pub cell: Cell,
    /// The frame count at the time of caching.
    pub tickstamp: usize,
}

/// Cache of cells, sorted by position, at most one cell per position.
#[derive(Debug)]
pub struct Cache(Vec<CacheItem>);

/// Whether `a` comes before `b`: ordered by column, then by row.
pub open spec fn key_lt(a: CacheKey, b: CacheKey) -> bool {
    a.x < b.x || (a.x == b.x && a.y < b.y)
}

/// The items are strictly increasing by position.
pub open spec fn sorted(items: Seq<CacheItem>) -> bool {
    forall|i: int, j: int| 0 <= i < j < items.len() ==> key_lt(#[trigger] items[i].key, #[trigger] items[j].key)
}

/// Whether some item has position `k`.
pub open spec fn has_key(items: Seq<CacheItem>, k: CacheKey) -> bool {
    exists|i: int| 0 <= i < items.len() && #[trigger] items[i].key == k
}

/// The positions and items of a sequence of items, as a map.
pub open spec fn as_map(items: Seq<CacheItem>) -> Map<CacheKey, CacheItem> {
    Map::new(
        |k: CacheKey| has_key(items, k),
        |k: CacheKey| items[choose|i: int| 0 <= i < items.len() && #[trigger] items[i].key == k],
    )
}

/// The positions of the cells that a cell of width `end` at `key` covers to its right, starting
/// from offset `start`.
pub open spec fn covered(key: CacheKey, start: int, end: int, k: CacheKey) -> bool {
    k.y == key.y && key.x + start <= k.x < key.x + end
}

/// In a sorted sequence, an item with a given position sits at exactly one index.
proof fn lemma_sorted_unique(items: Seq<CacheItem>, i: int, j: int)
    requires
        sorted(items),
        0 <= i < items.len(),
        0 <= j < items.len(),
        items[i].key == items[j].key,
    ensures
        i == j,
{
    if i < j {
        assert(key_lt(items[i].key, items[j].key));
    } else if j < i {
        assert(key_lt(items[j].key, items[i].key));
    }
}

/// The map of a sorted sequence yields the item at the index of a given position.
proof fn lemma_as_map_at(items: Seq<CacheItem>, i: int)
    requires
        sorted(items),
        0 <= i < items.len(),
    ensures
        as_map(items).contains_key(items[i].key),
        as_map(items)[items[i].key] == items[i],
{
    let k = items[i].key;
    assert(has_key(items, k));
    let j = choose|j: int| 0 <= j < items.len() && #[trigger] items[j].key == k;
    lemma_sorted_unique(items, i, j);
}

/// Inserting an item at its sorted place keeps the sequence sorted and inserts into the map.
proof fn lemma_insert(items: Seq<CacheItem>, i: int, item: CacheItem)
    requires
        sorted(items),
        0 <= i <= items.len(),
        forall|j: int| 0 <= j < i ==> key_lt(#[trigger] items[j].key, item.key),
        forall|j: int| i <= j < items.len() ==> key_lt(item.key, #[trigger] items[j].key),
    ensures
        sorted(items.insert(i, item)),
        as_map(items.insert(i, item)) == as_map(items).insert(item.key, item),
{
    let s = items.insert(i, item);
    assert(sorted(s)) by {
        assert forall|a: int, b: int| 0 <= a < b < s.len() implies key_lt(
            #[trigger] s[a].key,
            #[trigger] s[b].key,
        ) by {
            if a < i && b < i {
                assert(key_lt(items[a].key, items[b].key));
            } else if a < i && b == i {
            } else if a < i {
                assert(key_lt(items[a].key, items[b - 1].key));
                assert(key_lt(items[a].key, item.key));
            } else if a == i {
            } else {
                assert(key_lt(items[a - 1].key, items[b - 1].key));
            }
        }
    }
    let m = as_map(items).insert(item.key, item);
    assert forall|k: CacheKey| #[trigger] as_map(s).contains_key(k) <==> m.contains_key(k) by {
        if has_key(s, k) {
            let j = choose|j: int| 0 <= j < s.len() && #[trigger] s[j].key == k;
            if j < i {
                assert(items[j].key == k);
            } else if j > i {
                assert(items[j - 1].key == k);
            }
        }
        if has_key(items, k) {
            let j = choose|j: int| 0 <= j < items.len() && #[trigger] items[j].key == k;
            if j < i {
                assert(s[j].key == k);
            } else {
                assert(s[j + 1].key == k);
            }
        }
        if k == item.key {
            assert(s[i].key == k);
        }
    }
    assert forall|k: CacheKey| #[trigger] as_map(s).contains_key(k) implies as_map(s)[k] == m[k] by {
        let j = choose|j: int| 0 <= j < s.len() && #[trigger] s[j].key == k;
        lemma_as_map_at(s, j);
        if j < i {
            lemma_as_map_at(items, j);
        } else if j > i {
            lemma_as_map_at(items, j - 1);
        }
    }
    assert(as_map(s) =~= m);
}

/// Replacing the item at the index of its position keeps the sequence sorted and updates the map.
proof fn lemma_update(items: Seq<CacheItem>, i: int, item: CacheItem)
    requires
        sorted(items),
        0 <= i < items.len(),
        items[i].key == item.key,
    ensures
        sorted(items.update(i, item)),
        as_map(items.update(i, item)) == as_map(items).insert(item.key, item),
{
    let s = items.update(i, item);
    assert(sorted(s)) by {
        assert forall|a: int, b: int| 0 <= a < b < s.len() implies key_lt(
            #[trigger] s[a].key,
            #[trigger] s[b].key,
        ) by {
            assert(key_lt(items[a].key, items[b].key));
        }
    }
    let m = as_map(items).insert(item.key, item);
    assert forall|k: CacheKey| #[trigger] as_map(s).contains_key(k) <==> m.contains_key(k) by {
        if has_key(s, k) {
            let j = choose|j: int| 0 <= j < s.len() && #[trigger] s[j].key == k;
            if j != i {
                assert(items[j].key == k);
            }
        }
        if has_key(items, k) {
            let j = choose|j: int| 0 <= j < items.len() && #[trigger] items[j].key == k;
            assert(s[j].key == k);
        }
        if k == item.key {
            assert(s[i].key == k);
        }
    }
    assert forall|k: CacheKey| #[trigger] as_map(s).contains_key(k) implies as_map(s)[k] == m[k] by {
        let j = choose|j: int| 0 <= j < s.len() && #[trigger] s[j].key == k;
        lemma_as_map_at(s, j);
        if j != i {
            lemma_as_map_at(items, j);
        }
    }
    assert(as_map(s) =~= m);
}

/// Removing the item at an index keeps the sequence sorted and removes its position from the map.
proof fn lemma_remove(items: Seq<CacheItem>, i: int)
    requires
        sorted(items),
        0 <= i < items.len(),
    ensures
        sorted(items.remove(i)),
        as_map(items.remove(i)) == as_map(items).remove(items[i].key),
{
    let s = items.remove(i);
    let k0 = items[i].key;
    assert(sorted(s)) by {
        assert forall|a: int, b: int| 0 <= a < b < s.len() implies key_lt(
            #[trigger] s[a].key,
            #[trigger] s[b].key,
        ) by {
            if b < i {
                assert(key_lt(items[a].key, items[b].key));
            } else if a < i {
                assert(key_lt(items[a].key, items[b + 1].key));
            } else {
                assert(key_lt(items[a + 1].key, items[b + 1].key));
            }
        }
    }
    let m = as_map(items).remove(k0);
    assert forall|k: CacheKey| #[trigger] as_map(s).contains_key(k) <==> m.contains_key(k) by {
        if has_key(s, k) {
            let j = choose|j: int| 0 <= j < s.len() && #[trigger] s[j].key == k;
            if j < i {
                assert(items[j].key == k);
                if k == k0 {
                    lemma_sorted_unique(items, i, j);
                }
            } else {
                assert(items[j + 1].key == k);
                if k == k0 {
                    lemma_sorted_unique(items, i, j + 1);
                }
            }
        }
        if has_key(items, k) && k != k0 {
            let j = choose|j: int| 0 <= j < items.len() && #[trigger] items[j].key == k;
            if j < i {
                assert(s[j].key == k);
            } else {
                assert(j != i);
                assert(s[j - 1].key == k);
            }
        }
    }
    assert forall|k: CacheKey| #[trigger] as_map(s).contains_key(k) implies as_map(s)[k] == m[k] by {
        let j = choose|j: int| 0 <= j < s.len() && #[trigger] s[j].key == k;
        lemma_as_map_at(s, j);
        if j < i {
            lemma_as_map_at(items, j);
        } else {
            lemma_as_map_at(items, j + 1);
        }
    }
    assert(as_map(s) =~= m);
}

/// Caching a cell and then looking up its position gives the cell back, unless the cell that was
/// cached there before it spanned no columns while the new one spans some; the positions that
/// the new cell covers to its right are emptied, and all other positions keep their content.
pub proof fn cached_cell_reads_back(
    m: Map<CacheKey, CacheItem>,
    key: CacheKey,
    item: CacheItem,
    start: int,
    end: int,
    k: CacheKey,
)
    ensures
        ({
            let after = m.insert(key, item).remove_keys(
                Set::new(|c: CacheKey| covered(key, start, end, c)),
            );
            &&& (start >= 1 || end <= 0) ==> after.contains_key(key) && after[key] == item
            &&& covered(key, start, end, k) ==> !after.contains_key(k)
            &&& (k != key && !covered(key, start, end, k)) ==> after.contains_key(k)
                == m.contains_key(k) && (m.contains_key(k) ==> after[k] == m[k])
        }),
{
}

impl CacheKey {
    /// Creates a position.
    pub fn new(x: u16, y: u16) -> (r: Self)
        ensures
            r == (CacheKey { x, y }),
    {
        CacheKey { x, y }
    }
}

impl CacheItem {
    /// Creates a cached cell.
    pub fn new(key: CacheKey, cell: Cell, tickstamp: usize) -> (r: Self)
        ensures
            r.key == key,
            r.cell == cell,
            r.tickstamp == tickstamp,
    {
        CacheItem { key, cell, tickstamp }
    }
}

impl Clone for CacheItem {
    fn clone(&self) -> (r: Self)
        ensures
            r == *self,
    {
        CacheItem { key: self.key, cell: self.cell.clone(), tickstamp: self.tickstamp }
    }
}

/// Whether a cached item spans column `x`: its symbol is wide enough to reach that column, and
/// the column past its right edge is still a valid column.
pub open spec fn spans(item: CacheItem, x: u16) -> bool {
    let width = display_width(item.cell.symbol@);
    &&& item.key.x + width <= u16::MAX
    &&& item.key.x + width > x
}

impl Cache {
    /// The cached items, in order of position.
    pub closed spec fn items(&self) -> Seq<CacheItem> {
        self.0@
    }

    /// The cached items by position.
    pub open spec fn view(&self) -> Map<CacheKey, CacheItem> {
        as_map(self.items())
    }

    /// The items are sorted by position, one per position.
    pub open spec fn wf(&self) -> bool {
        sorted(self.items())
    }

    /// Every cache keeps its items sorted by position, one per position.
    #[verifier::type_invariant]
    closed spec fn sorted_by_position(self) -> bool {
        self.wf()
    }

    /// Creates an empty cache.
    pub fn new() -> (r: Self)
        ensures
            r.items().len() == 0,
            r@ == Map::<CacheKey, CacheItem>::empty(),
    {
        let r = Cache(Vec::new());
        assert(r@ =~= Map::<CacheKey, CacheItem>::empty());
        r
    }

    /// Finds the index of a position, or where an item with that position would be inserted.
    fn search(&self, key: &CacheKey) -> (r: Result<usize, usize>)
        requires
            self.wf(),
        ensures
            match r {
                Ok(i) => i < self.items().len() && self.items()[i as int].key == *key,
                Err(i) => {
                    &&& i <= self.items().len()
                    &&& forall|j: int| 0 <= j < i ==> key_lt(#[trigger] self.items()[j].key, *key)
                    &&& forall|j: int| i <= j < self.items().len() ==> key_lt(
                        *key,
                        #[trigger] self.items()[j].key,
                    )
                },
            },
    {
        let mut lo: usize = 0;
        let mut hi: usize = self.0.len();
        while lo < hi
            invariant
                self.wf(),
                lo <= hi <= self.items().len(),
                self.items() == self.0@,
                forall|j: int| 0 <= j < lo ==> key_lt(#[trigger] self.items()[j].key, *key),
                forall|j: int| hi <= j < self.items().len() ==> key_lt(
                    *key,
                    #[trigger] self.items()[j].key,
                ),
            decreases hi - lo,
        {
            let mid = lo + (hi - lo) / 2;
            let k = self.0[mid].key;
            if k.x == key.x && k.y == key.y {
                return Ok(mid);
            } else if k.x < key.x || (k.x == key.x && k.y < key.y) {
                assert forall|j: int| 0 <= j < mid + 1 implies key_lt(
                    #[trigger] self.items()[j].key,
                    *key,
                ) by {
                    if j < mid {
                        assert(key_lt(self.items()[j].key, self.items()[mid as int].key));
                    }
                }
                lo = mid + 1;
            } else {
                assert forall|j: int| mid <= j < self.items().len() implies key_lt(
                    *key,
                    #[trigger] self.items()[j].key,
                ) by {
                    if j > mid {
                        assert(key_lt(self.items()[mid as int].key, self.items()[j].key));
                    }
                }
                hi = mid;
            }
        }
        Err(lo)
    }

    /// Returns the cached item at a position.
    pub fn get(&self, key: &CacheKey) -> (r: Option<&CacheItem>)
        ensures
            match r {
                Some(item) => self@.contains_key(*key) && self@[*key] == *item,
                None => !self@.contains_key(*key),
            },
    {
        proof {
            use_type_invariant(self);
        }
        match self.search(key) {
            Ok(index) => {
                proof {
                    lemma_as_map_at(self.items(), index as int);
                }
                Some(&self.0[index])
            },
            Err(index) => {
                proof {
                    if self@.contains_key(*key) {
                        let j = choose|j: int|
                            0 <= j < self.items().len() && #[trigger] self.items()[j].key == *key;
                        if j < index {
                            assert(key_lt(self.items()[j].key, *key));
                        } else {
                            assert(key_lt(*key, self.items()[j].key));
                        }
                    }
                }
                None
            },
        }
    }

    /// Removes and returns the cached item at a position.
    pub fn remove(&mut self, key: &CacheKey) -> (r: Option<CacheItem>)
        ensures
            final(self)@ == old(self)@.remove(*key),
            match r {
                Some(item) => old(self)@.contains_key(*key) && old(self)@[*key] == item,
                None => !old(self)@.contains_key(*key),
            },
    {
        proof {
            use_type_invariant(&*self);
        }
        match self.search(key) {
            Ok(index) => {
                proof {
                    lemma_as_map_at(self.items(), index as int);
                    lemma_remove(self.items(), index as int);
                }
                let mut items: Vec<CacheItem> = Vec::new();
                std::mem::swap(&mut items, &mut self.0);
                let item = items.remove(index);
                self.0 = items;
                Some(item)
            },
            Err(index) => {
                proof {
                    if self@.contains_key(*key) {
                        let j = choose|j: int|
                            0 <= j < self.items().len() && #[trigger] self.items()[j].key == *key;
                        if j < index {
                            assert(key_lt(self.items()[j].key, *key));
                        } else {
                            assert(key_lt(*key, self.items()[j].key));
                        }
                    }
                    assert(self@.remove(*key) =~= self@);
                }
                None
            },
        }
    }

    /// Returns the number of cached items.
    pub fn len(&self) -> (r: usize)
        ensures
            r == self.items().len(),
    {
        self.0.len()
    }

    /// Returns the cached item at index `i` in order of position.
    pub fn at(&self, i: usize) -> (r: &CacheItem)
        requires
            i < self.items().len(),
        ensures
            *r == self.items()[i as int],
    {
        &self.0[i]
    }

    /// Finds the cached cell that spans the specified position: the cell at that position, or else
    /// a cell one column to the left whose symbol is two or more columns wide.
    pub fn find(&self, position: Position) -> (r: Option<(u16, u16, &Cell)>)
        ensures
            ({
                let here = CacheKey { x: position.x, y: position.y };
                let left = CacheKey { x: (position.x - 1) as u16, y: position.y };
                if self@.contains_key(here) && spans(self@[here], position.x) {
                    r matches Some((x, y, cell)) && x == here.x && y == here.y && *cell
                        == self@[here].cell
                } else if position.x >= 1 && self@.contains_key(left) && spans(
                    self@[left],
                    position.x,
                ) {
                    r matches Some((x, y, cell)) && x == left.x && y == left.y && *cell
                        == self@[left].cell
                } else {
                    r is None
                }
            }),
    {
        proof {
            use_type_invariant(self);
        }
        let x = position.x;
        let y = position.y;
        let mut x_offset: u16 = 0;
        while x_offset < 2
            invariant
                x == position.x,
                y == position.y,
                self.wf(),
                x_offset <= 2,
                x_offset >= 1 ==> !(self@.contains_key(CacheKey { x, y }) && spans(
                    self@[CacheKey { x, y }],
                    x,
                )),
                x_offset >= 2 ==> !(x >= 1 && self@.contains_key(
                    CacheKey { x: (x - 1) as u16, y },
                ) && spans(self@[CacheKey { x: (x - 1) as u16, y }], x)),
            decreases 2 - x_offset,
        {
            if x >= x_offset {
                let left = x - x_offset;
                let key = CacheKey::new(left, y);
                if let Some(item) = self.get(&key) {
                    let width = item.cell.width();
                    if width <= u16::MAX as usize {
                        let offset = width as u16;
                        if let Some(sum) = left.checked_add(offset) {
                            if sum > x {
                                return Some((left, y, &item.cell));
                            }
                        }
                    }
                }
            }
            x_offset = x_offset + 1;
        }
        None
    }

    /// Caches a cell at a position, replacing and returning the item previously cached there.
    ///
    /// A cell whose symbol is wider than one column covers the cells to its right, which are then
    /// removed from the cache; the columns that the previous item at the position already covered
    /// are not visited again.
    pub fn insert_or_replace(&mut self, key: CacheKey, cell: Cell, tickstamp: usize) -> (r: Option<
        CacheItem,
    >)
        ensures
            r == (if old(self)@.contains_key(key) {
                Some(old(self)@[key])
            } else {
                None::<CacheItem>
            }),
            ({
                let start = match r {
                    Some(item) => display_width(item.cell.symbol@) as int,
                    None => 1,
                };
                let end = display_width(cell.symbol@) as int;
                final(self)@ == old(self)@.insert(
                    key,
                    CacheItem { key, cell, tickstamp },
                ).remove_keys(Set::new(|k: CacheKey| covered(key, start, end, k)))
            }),
    {
        proof {
            use_type_invariant(&*self);
        }
        let x = key.x;
        let y = key.y;
        let end = cell.width();
        let ghost new_cell = cell;
        let item = CacheItem::new(key, cell, tickstamp);
        let ghost new_item = item;
        let previous = match self.search(&key) {
            Ok(index) => {
                proof {
                    lemma_as_map_at(self.items(), index as int);
                    lemma_remove(self.items(), index as int);
                    lemma_update(self.items(), index as int, item);
                    assert(self.items().remove(index as int).insert(index as int, item)
                        =~= self.items().update(index as int, item));
                }
                let mut items: Vec<CacheItem> = Vec::new();
                std::mem::swap(&mut items, &mut self.0);
                let previous = items.remove(index);
                items.insert(index, item);
                self.0 = items;
                Some(previous)
            },
            Err(index) => {
                proof {
                    lemma_insert(self.items(), index as int, item);
                    if old(self)@.contains_key(key) {
                        let j = choose|j: int|
                            0 <= j < self.items().len() && #[trigger] self.items()[j].key == key;
                        if j < index {
                            assert(key_lt(self.items()[j].key, key));
                        } else {
                            assert(key_lt(key, self.items()[j].key));
                        }
                    }
                }
                let mut items: Vec<CacheItem> = Vec::new();
                std::mem::swap(&mut items, &mut self.0);
                items.insert(index, item);
                self.0 = items;
                None
            },
        };
        let start = match &previous {
            Some(item) => item.cell.width(),
            None => 1,
        };
        let ghost inserted = self@;
        let bound: usize = if end < 65536 {
            end
        } else {
            65536
        };
        let mut offset = start;
        proof {
            assert(inserted.remove_keys(Set::new(|k: CacheKey| covered(key, start as int, start as int, k)))
                =~= inserted);
        }
        while offset < bound
            invariant
                start <= offset <= bound || (offset == start && start >= bound),
                bound <= 65536,
                bound == (if end < 65536 { end } else { 65536 }),
                key.x == x,
                key.y == y,
                self@ == inserted.remove_keys(
                    Set::new(|k: CacheKey| covered(key, start as int, offset as int, k)),
                ),
            decreases bound - offset,
        {
            if let Some(right) = x.checked_add(offset as u16) {
                let ghost before = self@;
                let _ = self.remove(&CacheKey::new(right, y));
                proof {
                    assert(self@ =~= inserted.remove_keys(
                        Set::new(|k: CacheKey| covered(key, start as int, offset + 1, k)),
                    ));
                }
            } else {
                proof {
                    assert(self@ =~= inserted.remove_keys(
                        Set::new(|k: CacheKey| covered(key, start as int, offset + 1, k)),
                    ));
                }
            }
            offset = offset + 1;
        }
        proof {
            assert(self@ =~= inserted.remove_keys(
                Set::new(|k: CacheKey| covered(key, start as int, end as int, k)),
            ));
        }
        previous
    }

    /// Keeps only the cached items whose positions the predicate `f` holds for, in order.
    pub fn retain(&mut self, f: impl Fn(CacheKey) -> bool)
        requires
            forall|k: CacheKey| #[trigger] f.requires((k,)),
        ensures
            forall|k: CacheKey| #[trigger]
                final(self)@.contains_key(k) ==> old(self)@.contains_key(k) && final(self)@[k]
                    == old(self)@[k] && f.ensures((k,), true),
            forall|k: CacheKey|
                #[trigger] old(self)@.contains_key(k) && !final(self)@.contains_key(k) ==> f.ensures(
                    (k,),
                    false,
                ),
    {
        proof {
            use_type_invariant(&*self);
        }
        let mut items: Vec<CacheItem> = Vec::new();
        std::mem::swap(&mut items, &mut self.0);
        let ghost all_items = items@;
        let mut kept: Vec<CacheItem> = Vec::new();
        let mut i: usize = 0;
        while i < items.len()
            invariant
                items@ == all_items,
                sorted(all_items),
                old(self)@ == as_map(all_items),
                i <= all_items.len(),
                sorted(kept@),
                forall|k: CacheKey| #[trigger] f.requires((k,)),
                forall|j: int|
                    #![trigger kept@[j]]
                    0 <= j < kept@.len() ==> exists|l: int|
                        0 <= l < i && #[trigger] all_items[l] == kept@[j] && f.ensures(
                            (all_items[l].key,),
                            true,
                        ),
                forall|j: int|
                    0 <= j < kept@.len() ==> forall|l: int|
                        i <= l < all_items.len() ==> key_lt(
                            #[trigger] kept@[j].key,
                            #[trigger] all_items[l].key,
                        ),
                forall|l: int|
                    0 <= l < i ==> has_key(kept@, #[trigger] all_items[l].key) || f.ensures(
                        (all_items[l].key,),
                        false,
                    ),
            decreases all_items.len() - i,
        {
            let key = items[i].key;
            let keep = f(key);
            if keep {
                let item = items[i].clone();
                proof {
                    assert forall|j: int| 0 <= j < kept@.len() implies key_lt(
                        #[trigger] kept@[j].key,
                        item.key,
                    ) by {
                        assert(key_lt(kept@[j].key, all_items[i as int].key));
                    }
                    lemma_insert(kept@, kept@.len() as int, item);
                    assert(kept@.insert(kept@.len() as int, item) =~= kept@.push(item));
                }
                let ghost kept_before = kept@;
                kept.push(item);
                proof {
                    assert(kept@.drop_last() =~= kept_before);
                    assert(all_items[i as int] == kept@[kept@.len() - 1]);
                    assert forall|l: int| 0 <= l < i + 1 implies has_key(
                        kept@,
                        #[trigger] all_items[l].key,
                    ) || f.ensures((all_items[l].key,), false) by {
                        if l == i {
                            assert(kept@[kept@.len() - 1].key == all_items[l].key);
                        } else if has_key(kept_before, all_items[l].key) {
                            let j = choose|j: int|
                                0 <= j < kept_before.len()
                                    && #[trigger] kept_before[j].key == all_items[l].key;
                            assert(kept@[j].key == all_items[l].key);
                        }
                    }
                    assert forall|j: int| 0 <= j < kept@.len() implies forall|l: int|
                        i + 1 <= l < all_items.len() ==> key_lt(
                            #[trigger] kept@[j].key,
                            #[trigger] all_items[l].key,
                        ) by {
                        assert forall|l: int| i + 1 <= l < all_items.len() implies key_lt(
                            #[trigger] kept@[j].key,
                            #[trigger] all_items[l].key,
                        ) by {
                            if j < kept@.len() - 1 {
                                assert(key_lt(kept@.drop_last()[j].key, all_items[l].key));
                            } else {
                                assert(key_lt(all_items[i as int].key, all_items[l].key));
                            }
                        }
                    }
                    assert forall|j: int| #![trigger kept@[j]] 0 <= j < kept@.len() implies exists|l: int|
                        0 <= l < i + 1 && #[trigger] all_items[l] == kept@[j] && f.ensures(
                            (all_items[l].key,),
                            true,
                        ) by {
                        if j == kept@.len() - 1 {
                            assert(all_items[i as int] == kept@[j]);
                        } else {
                            assert(kept@.drop_last()[j] == kept@[j]);
                        }
                    }
                }
            }
            i = i + 1;
        }
        self.0 = kept;
        proof {
            assert forall|k: CacheKey| #[trigger] self@.contains_key(k) implies old(
                self,
            )@.contains_key(k) && self@[k] == old(self)@[k] && f.ensures((k,), true) by {
                let j = choose|j: int| 0 <= j < kept@.len() && #[trigger] kept@[j].key == k;
                lemma_as_map_at(kept@, j);
                let l = choose|l: int|
                    0 <= l < all_items.len() && #[trigger] all_items[l] == kept@[j] && f.ensures(
                        (all_items[l].key,),
                        true,
                    );
                lemma_as_map_at(all_items, l);
            }
            assert forall|k: CacheKey| #[trigger]
                old(self)@.contains_key(k) && !self@.contains_key(k) implies f.ensures(
                (k,),
                false,
            ) by {
                let l = choose|l: int| 0 <= l < all_items.len() && #[trigger] all_items[l].key == k;
                assert(has_key(kept@, all_items[l].key) || f.ensures((all_items[l].key,), false));
            }
        }
    }

    /// Returns an iterator over the cached items, in order of position.
    pub fn iter(&self) -> (r: core::slice::Iter<'_, CacheItem>)
        ensures
            r.remaining() == self.items().map_values(|item: CacheItem| &item),
    {
        proof {
            broadcast use vstd::std_specs::slice::axiom_spec_slice_iter;
        }
        self.0.as_slice().iter()
    }

    /// Removes every cached item.
    pub fn clear(&mut self)
        ensures
            final(self)@ == Map::<CacheKey, CacheItem>::empty(),
            final(self).items().len() == 0,
    {
        self.0 = Vec::new();
        assert(self@ =~= Map::<CacheKey, CacheItem>::empty());
    }
}

impl Default for Cache {
    fn default() -> (r: Self)
        ensures
            r.items().len() == 0,
            r@ == Map::<CacheKey, CacheItem>::empty(),
    {
        Self::new()
    }
}

} // verus!
