//! The index that finds the stored subscriptions an alert concerns: grid
//! cell to subscriptions, and administrative region to subscriptions.
use crate::db::subscription_store::{
    cell_lt, cells_meet, chars_equal, entries_view, entry_matches, regions_meet, strings_view, lemma_lex_irreflexive, lemma_lex_total, lemma_lex_transitive, lex_less,
    lex_lt, EntryView, StoredSubscription,
};
use crate::text::chars_of;
use vstd::prelude::*;

verus! {

broadcast use vstd::string::group_string_axioms;

/// The subscriptions, by position in the snapshot, that watch one cell.
pub struct CellBucket {
    pub cell: (i16, i16),
    pub members: Vec<usize>,
}

/// The subscriptions, by position in the snapshot, indexed under one
/// region name.
pub struct RegionBucket {
    pub key: Vec<char>,
    pub members: Vec<usize>,
}

/// Grid cell and region lookups over one snapshot.
pub struct SubscriptionIndex {
    grid: Vec<CellBucket>,
    regions: Vec<RegionBucket>,
}

/// `ms` is strictly increasing.
pub open spec fn strictly_increasing(ms: Seq<usize>) -> bool {
    forall|i: int, j: int| 0 <= i < j < ms.len() ==> ms[i] < ms[j]
}

/// Bucket `b` of `grid` holds exactly-sorted members that all watch its cell.
pub open spec fn cell_bucket_sound<S>(grid: Seq<CellBucket>, b: int, s: Seq<EntryView<S>>) -> bool {
    &&& strictly_increasing(grid[b].members@)
    &&& forall|k: int|
        0 <= k < grid[b].members@.len() ==> (#[trigger] grid[b].members@[k]) < s.len()
            && s[grid[b].members@[k] as int].cells.contains(grid[b].cell)
}

/// Subscription `p` is listed under cell `c`.
pub open spec fn grid_has(grid: Seq<CellBucket>, c: (i16, i16), p: int) -> bool {
    exists|b: int| 0 <= b < grid.len() && (#[trigger] grid[b]).cell == c && grid[b].members@.contains(p as usize)
}

/// The buckets of `grid` are ordered by cell.
pub open spec fn grid_sorted(grid: Seq<CellBucket>) -> bool {
    forall|i: int, j: int| 0 <= i < j < grid.len() ==> cell_lt((#[trigger] grid[i]).cell, (#[trigger] grid[j]).cell)
}

/// Bucket `b` of `regions` holds sorted members that all carry its region.
pub open spec fn region_bucket_sound<S>(regions: Seq<RegionBucket>, b: int, s: Seq<EntryView<S>>) -> bool {
    &&& regions[b].key@.len() > 0
    &&& strictly_increasing(regions[b].members@)
    &&& forall|k: int|
        0 <= k < regions[b].members@.len() ==> (#[trigger] regions[b].members@[k]) < s.len()
            && s[regions[b].members@[k] as int].regions.contains(regions[b].key@)
}

/// Subscription `p` is listed under region `r`.
pub open spec fn regions_has(regions: Seq<RegionBucket>, r: Seq<char>, p: int) -> bool {
    exists|b: int| 0 <= b < regions.len() && (#[trigger] regions[b]).key@ == r && regions[b].members@.contains(p as usize)
}

/// The buckets of `regions` are ordered by name.
pub open spec fn regions_sorted(regions: Seq<RegionBucket>) -> bool {
    forall|i: int, j: int| 0 <= i < j < regions.len() ==> lex_lt((#[trigger] regions[i]).key@, (#[trigger] regions[j]).key@)
}

/// `grid` lists every subscription of `s` under each of its cells and
/// under nothing else.
pub open spec fn grid_indexes<S>(grid: Seq<CellBucket>, s: Seq<EntryView<S>>) -> bool {
    &&& grid_sorted(grid)
    &&& forall|b: int| 0 <= b < grid.len() ==> #[trigger] cell_bucket_sound(grid, b, s)
    &&& forall|p: int, c: (i16, i16)| 0 <= p < s.len() && #[trigger] s[p].cells.contains(c) ==> #[trigger] grid_has(grid, c, p)
}

/// `regions` lists every subscription of `s` under each of its non-empty
/// region names and under nothing else.
pub open spec fn regions_index<S>(regions: Seq<RegionBucket>, s: Seq<EntryView<S>>) -> bool {
    &&& regions_sorted(regions)
    &&& forall|b: int| 0 <= b < regions.len() ==> #[trigger] region_bucket_sound(regions, b, s)
    &&& forall|p: int, r: Seq<char>|
        0 <= p < s.len() && #[trigger] s[p].regions.contains(r) && r.len() > 0 ==> #[trigger] regions_has(regions, r, p)
}

impl SubscriptionIndex {
    /// The index answers for the snapshot `s`.
    pub closed spec fn indexes<S>(&self, s: Seq<EntryView<S>>) -> bool {
        grid_indexes(self.grid@, s) && regions_index(self.regions@, s)
    }
}

/// Bucket `b` of `grid` is sound for `s` with members up to `p`.
pub open spec fn cell_bucket_upto<S>(grid: Seq<CellBucket>, b: int, s: Seq<EntryView<S>>, p: int) -> bool {
    &&& strictly_increasing(grid[b].members@)
    &&& forall|k: int|
        0 <= k < grid[b].members@.len() ==> (#[trigger] grid[b].members@[k]) <= p
            && s[grid[b].members@[k] as int].cells.contains(grid[b].cell)
}

/// Binary search for the bucket of cell `c`.
fn grid_search(grid: &Vec<CellBucket>, c: (i16, i16)) -> (r: (usize, bool))
    requires
        grid_sorted(grid@),
    ensures
        r.0 <= grid.len(),
        forall|i: int| 0 <= i < r.0 ==> cell_lt((#[trigger] grid@[i]).cell, c),
        r.1 == (r.0 < grid.len() && grid@[r.0 as int].cell == c),
        !r.1 ==> forall|i: int| r.0 <= i < grid.len() ==> cell_lt(c, (#[trigger] grid@[i]).cell),
        !r.1 ==> forall|i: int| 0 <= i < grid.len() ==> (#[trigger] grid@[i]).cell != c,
        r.1 ==> forall|i: int| 0 <= i < grid.len() && i != r.0 ==> (#[trigger] grid@[i]).cell != c,
{
    let mut lo: usize = 0;
    let mut hi: usize = grid.len();
    while lo < hi
        invariant
            grid_sorted(grid@),
            lo <= hi <= grid.len(),
            forall|i: int| 0 <= i < lo ==> cell_lt((#[trigger] grid@[i]).cell, c),
            forall|i: int| hi <= i < grid.len() ==> !cell_lt((#[trigger] grid@[i]).cell, c),
        decreases hi - lo,
    {
        let mid = lo + (hi - lo) / 2;
        let m = grid[mid].cell;
        if m.0 < c.0 || (m.0 == c.0 && m.1 < c.1) {
            proof {
                assert forall|i: int| 0 <= i < mid + 1 implies cell_lt((#[trigger] grid@[i]).cell, c) by {
                    if i < mid {
                        assert(cell_lt(grid@[i].cell, grid@[mid as int].cell));
                    }
                }
            }
            lo = mid + 1;
        } else {
            proof {
                assert forall|i: int| mid <= i < grid.len() implies !cell_lt((#[trigger] grid@[i]).cell, c) by {
                    if i > mid {
                        assert(cell_lt(grid@[mid as int].cell, grid@[i].cell));
                    }
                }
            }
            hi = mid;
        }
    }
    let found = lo < grid.len() && grid[lo].cell.0 == c.0 && grid[lo].cell.1 == c.1;
    proof {
        if found {
            assert(grid@[lo as int].cell == c);
            assert forall|i: int| 0 <= i < grid.len() && i != lo implies (#[trigger] grid@[i]).cell != c by {
                if i < lo {
                    assert(cell_lt(grid@[i].cell, c));
                } else {
                    assert(cell_lt(grid@[lo as int].cell, grid@[i].cell));
                }
            }
        } else {
            assert forall|i: int| lo <= i < grid.len() implies cell_lt(c, (#[trigger] grid@[i]).cell) by {
                if i > lo {
                    assert(cell_lt(grid@[lo as int].cell, grid@[i].cell));
                }
            }
            assert forall|i: int| 0 <= i < grid.len() implies (#[trigger] grid@[i]).cell != c by {
                if i < lo {
                    assert(cell_lt(grid@[i].cell, c));
                } else {
                    assert(cell_lt(c, grid@[i].cell));
                }
            }
        }
    }
    (lo, found)
}

/// Lists subscription `p` under cell `c`, where `p` is at least every
/// member listed so far.
fn grid_add<S>(grid: &mut Vec<CellBucket>, c: (i16, i16), p: usize, Ghost(s): Ghost<Seq<EntryView<S>>>)
    requires
        p < s.len(),
        s[p as int].cells.contains(c),
        grid_sorted(old(grid)@),
        forall|b: int| 0 <= b < old(grid).len() ==> #[trigger] cell_bucket_upto(old(grid)@, b, s, p as int),
    ensures
        grid_sorted(final(grid)@),
        forall|b: int| 0 <= b < final(grid).len() ==> #[trigger] cell_bucket_upto(final(grid)@, b, s, p as int),
        forall|x: (i16, i16), q: int| #[trigger] grid_has(old(grid)@, x, q) ==> grid_has(final(grid)@, x, q),
        grid_has(final(grid)@, c, p as int),
{
    let ghost g0 = grid@;
    let (b, found) = grid_search(grid, c);
    if found {
        let ghost m0 = grid@[b as int].members@;
        let n = grid[b].members.len();
        if n > 0 && grid[b].members[n - 1] == p {
            assert(grid@[b as int].members@.contains(p));
        } else {
            proof {
                assert(cell_bucket_upto(g0, b as int, s, p as int));
                if n > 0 {
                    assert(m0[n - 1] <= p);
                }
            }
            grid[b].members.push(p);
            proof {
                let g1 = grid@;
                assert(g1 == g0.update(b as int, g1[b as int]));
                assert(g1[b as int].members@ == m0.push(p));
                assert(g1[b as int].cell == c);
                assert(g1[b as int].members@[n as int] == p);
                assert forall|i: int, j: int| 0 <= i < j < g1[b as int].members@.len() implies g1[b as int].members@[i] < g1[b as int].members@[j] by {
                    if j == n {
                        assert(m0[i] <= p);
                        assert(m0[i] != p) by {
                            if m0[i] == p {
                                assert(m0[i] <= m0[n - 1]) by {
                                    if i < n - 1 {
                                        assert(m0[i] < m0[n - 1]);
                                    }
                                }
                            }
                        }
                    }
                }
                assert forall|bb: int| 0 <= bb < g1.len() implies #[trigger] cell_bucket_upto(g1, bb, s, p as int) by {
                    if bb != b {
                        assert(cell_bucket_upto(g0, bb, s, p as int));
                    } else {
                        assert forall|k: int| 0 <= k < g1[bb].members@.len() implies (#[trigger] g1[bb].members@[k]) <= p
                            && s[g1[bb].members@[k] as int].cells.contains(g1[bb].cell) by {
                            if k < n {
                                assert(g1[bb].members@[k] == m0[k]);
                            }
                        }
                    }
                }
                assert forall|x: (i16, i16), q: int| #[trigger] grid_has(g0, x, q) implies grid_has(g1, x, q) by {
                    let bb = choose|bb: int| 0 <= bb < g0.len() && (#[trigger] g0[bb]).cell == x && g0[bb].members@.contains(q as usize);
                    let k = choose|k: int| 0 <= k < g0[bb].members@.len() && g0[bb].members@[k] == q as usize;
                    assert(g1[bb].members@[k] == q as usize);
                }
                assert(g1[b as int].members@.contains(p));
            }
        }
    } else {
        let mut members: Vec<usize> = Vec::new();
        members.push(p);
        grid.insert(b, CellBucket { cell: c, members });
        proof {
            let g1 = grid@;
            assert(g1[b as int].members@ == seq![p]);
            assert(g1[b as int].members@[0] == p);
            assert forall|i: int, j: int| 0 <= i < j < g1.len() implies cell_lt((#[trigger] g1[i]).cell, (#[trigger] g1[j]).cell) by {
                if j < b {
                    assert(cell_lt(g0[i].cell, g0[j].cell));
                } else if j == b {
                    assert(cell_lt(g0[i].cell, c));
                } else if i < b {
                    assert(cell_lt(g0[i].cell, c));
                    assert(cell_lt(c, g0[j - 1].cell));
                } else if i == b {
                    assert(cell_lt(c, g0[j - 1].cell));
                } else {
                    assert(cell_lt(g0[i - 1].cell, g0[j - 1].cell));
                }
            }
            assert forall|bb: int| 0 <= bb < g1.len() implies #[trigger] cell_bucket_upto(g1, bb, s, p as int) by {
                if bb < b {
                    assert(g1[bb] == g0[bb]);
                    assert(cell_bucket_upto(g0, bb, s, p as int));
                } else if bb > b {
                    assert(g1[bb] == g0[bb - 1]);
                    assert(cell_bucket_upto(g0, bb - 1, s, p as int));
                }
            }
            assert forall|x: (i16, i16), q: int| #[trigger] grid_has(g0, x, q) implies grid_has(g1, x, q) by {
                let bb = choose|bb: int| 0 <= bb < g0.len() && (#[trigger] g0[bb]).cell == x && g0[bb].members@.contains(q as usize);
                if bb < b {
                    assert(g1[bb] == g0[bb]);
                } else {
                    assert(g1[bb + 1] == g0[bb]);
                }
            }
            assert(g1[b as int].members@.contains(p));
        }
    }
}

/// The grid index of the snapshot `entries`.
fn build_grid<S>(entries: &Vec<StoredSubscription<S>>) -> (grid: Vec<CellBucket>)
    ensures
        grid_indexes(grid@, entries_view(entries@)),
{
    let ghost s = entries_view(entries@);
    let mut grid: Vec<CellBucket> = Vec::new();
    let mut p: usize = 0;
    while p < entries.len()
        invariant
            s == entries_view(entries@),
            p <= entries.len(),
            grid_sorted(grid@),
            forall|b: int| 0 <= b < grid.len() ==> #[trigger] cell_bucket_upto(grid@, b, s, p - 1),
            forall|q: int, c: (i16, i16)| 0 <= q < p && #[trigger] s[q].cells.contains(c) ==> #[trigger] grid_has(grid@, c, q),
        decreases entries.len() - p,
    {
        let cells = &entries[p].cells;
        assert(cells@ == s[p as int].cells);
        assert forall|b: int| 0 <= b < grid.len() implies #[trigger] cell_bucket_upto(grid@, b, s, p as int) by {
            assert(cell_bucket_upto(grid@, b, s, p - 1));
        }
        let mut k: usize = 0;
        while k < cells.len()
            invariant
                s == entries_view(entries@),
                p < entries.len(),
                cells@ == s[p as int].cells,
                k <= cells.len(),
                grid_sorted(grid@),
                forall|b: int| 0 <= b < grid.len() ==> #[trigger] cell_bucket_upto(grid@, b, s, p as int),
                forall|q: int, c: (i16, i16)| 0 <= q < p && #[trigger] s[q].cells.contains(c) ==> #[trigger] grid_has(grid@, c, q),
                forall|i: int| 0 <= i < k ==> grid_has(grid@, #[trigger] cells@[i], p as int),
            decreases cells.len() - k,
        {
            proof {
                assert(s[p as int].cells.contains(cells@[k as int]));
            }
            let ghost before = grid@;
            grid_add::<S>(&mut grid, cells[k], p, Ghost(s));
            proof {
                assert forall|q: int, c: (i16, i16)| 0 <= q < p && #[trigger] s[q].cells.contains(c) implies #[trigger] grid_has(grid@, c, q) by {
                    assert(grid_has(before, c, q));
                }
                assert forall|i: int| 0 <= i < k + 1 implies grid_has(grid@, #[trigger] cells@[i], p as int) by {
                    if i < k {
                        assert(grid_has(before, cells@[i], p as int));
                    }
                }
            }
            k += 1;
        }
        proof {
            assert forall|q: int, c: (i16, i16)| 0 <= q < p + 1 && #[trigger] s[q].cells.contains(c) implies #[trigger] grid_has(grid@, c, q) by {
                if q == p {
                    let i = choose|i: int| 0 <= i < s[q].cells.len() && s[q].cells[i] == c;
                    assert(grid_has(grid@, cells@[i], p as int));
                }
            }
        }
        p += 1;
    }
    proof {
        assert forall|b: int| 0 <= b < grid.len() implies #[trigger] cell_bucket_sound(grid@, b, s) by {
            assert(cell_bucket_upto(grid@, b, s, p - 1));
            assert forall|k: int| 0 <= k < grid@[b].members@.len() implies (#[trigger] grid@[b].members@[k]) < s.len()
                && s[grid@[b].members@[k] as int].cells.contains(grid@[b].cell) by {}
        }
    }
    grid
}

/// Bucket `b` of `regions` is sound for `s` with members up to `p`.
pub open spec fn region_bucket_upto<S>(regions: Seq<RegionBucket>, b: int, s: Seq<EntryView<S>>, p: int) -> bool {
    &&& regions[b].key@.len() > 0
    &&& strictly_increasing(regions[b].members@)
    &&& forall|k: int|
        0 <= k < regions[b].members@.len() ==> (#[trigger] regions[b].members@[k]) <= p
            && s[regions[b].members@[k] as int].regions.contains(regions[b].key@)
}

/// Binary search for the bucket of region `key`.
fn region_search(regions: &Vec<RegionBucket>, key: &Vec<char>) -> (r: (usize, bool))
    requires
        regions_sorted(regions@),
    ensures
        r.0 <= regions.len(),
        forall|i: int| 0 <= i < r.0 ==> lex_lt((#[trigger] regions@[i]).key@, key@),
        r.1 == (r.0 < regions.len() && regions@[r.0 as int].key@ == key@),
        !r.1 ==> forall|i: int| r.0 <= i < regions.len() ==> lex_lt(key@, (#[trigger] regions@[i]).key@),
        !r.1 ==> forall|i: int| 0 <= i < regions.len() ==> (#[trigger] regions@[i]).key@ != key@,
        r.1 ==> forall|i: int| 0 <= i < regions.len() && i != r.0 ==> (#[trigger] regions@[i]).key@ != key@,
{
    let mut lo: usize = 0;
    let mut hi: usize = regions.len();
    while lo < hi
        invariant
            regions_sorted(regions@),
            lo <= hi <= regions.len(),
            forall|i: int| 0 <= i < lo ==> lex_lt((#[trigger] regions@[i]).key@, key@),
            forall|i: int| hi <= i < regions.len() ==> !lex_lt((#[trigger] regions@[i]).key@, key@),
        decreases hi - lo,
    {
        let mid = lo + (hi - lo) / 2;
        if lex_less(&regions[mid].key, key) {
            proof {
                assert forall|i: int| 0 <= i < mid + 1 implies lex_lt((#[trigger] regions@[i]).key@, key@) by {
                    if i < mid {
                        assert(lex_lt(regions@[i].key@, regions@[mid as int].key@));
                        lemma_lex_transitive(regions@[i].key@, regions@[mid as int].key@, key@);
                    }
                }
            }
            lo = mid + 1;
        } else {
            proof {
                assert forall|i: int| mid <= i < regions.len() implies !lex_lt((#[trigger] regions@[i]).key@, key@) by {
                    if i > mid {
                        assert(lex_lt(regions@[mid as int].key@, regions@[i].key@));
                        if lex_lt(regions@[i].key@, key@) {
                            lemma_lex_transitive(regions@[mid as int].key@, regions@[i].key@, key@);
                        }
                    }
                }
            }
            hi = mid;
        }
    }
    let found = lo < regions.len() && chars_equal(&regions[lo].key, key);
    proof {
        lemma_lex_irreflexive(key@);
        if found {
            assert forall|i: int| 0 <= i < regions.len() && i != lo implies (#[trigger] regions@[i]).key@ != key@ by {
                if i > lo {
                    assert(lex_lt(regions@[lo as int].key@, regions@[i].key@));
                }
            }
        } else {
            assert forall|i: int| lo <= i < regions.len() implies lex_lt(key@, (#[trigger] regions@[i]).key@) by {
                lemma_lex_total(key@, regions@[i].key@);
                if i > lo {
                    assert(lex_lt(regions@[lo as int].key@, regions@[i].key@));
                }
            }
            assert forall|i: int| 0 <= i < regions.len() implies (#[trigger] regions@[i]).key@ != key@ by {
                if i >= lo {
                    assert(lex_lt(key@, regions@[i].key@));
                }
            }
        }
    }
    (lo, found)
}

/// Lists subscription `p` under the non-empty region `key`, where `p` is
/// at least every member listed so far.
fn region_add<S>(regions: &mut Vec<RegionBucket>, key: Vec<char>, p: usize, Ghost(s): Ghost<Seq<EntryView<S>>>)
    requires
        p < s.len(),
        key@.len() > 0,
        s[p as int].regions.contains(key@),
        regions_sorted(old(regions)@),
        forall|b: int| 0 <= b < old(regions).len() ==> #[trigger] region_bucket_upto(old(regions)@, b, s, p as int),
    ensures
        regions_sorted(final(regions)@),
        forall|b: int| 0 <= b < final(regions).len() ==> #[trigger] region_bucket_upto(final(regions)@, b, s, p as int),
        forall|r: Seq<char>, q: int| #[trigger] regions_has(old(regions)@, r, q) ==> regions_has(final(regions)@, r, q),
        regions_has(final(regions)@, key@, p as int),
{
    let ghost g0 = regions@;
    let ghost kv = key@;
    let (b, found) = region_search(regions, &key);
    if found {
        let ghost m0 = regions@[b as int].members@;
        let n = regions[b].members.len();
        if n > 0 && regions[b].members[n - 1] == p {
            assert(regions@[b as int].members@.contains(p));
        } else {
            proof {
                assert(region_bucket_upto(g0, b as int, s, p as int));
                if n > 0 {
                    assert(m0[n - 1] <= p);
                }
            }
            regions[b].members.push(p);
            proof {
                let g1 = regions@;
                assert(g1 == g0.update(b as int, g1[b as int]));
                assert(g1[b as int].members@ == m0.push(p));
                assert(g1[b as int].key@ == kv);
                assert(g1[b as int].members@[n as int] == p);
                assert forall|i: int, j: int| 0 <= i < j < g1[b as int].members@.len() implies g1[b as int].members@[i] < g1[b as int].members@[j] by {
                    if j == n {
                        assert(m0[i] <= p);
                        assert(m0[i] != p) by {
                            if m0[i] == p {
                                assert(m0[i] <= m0[n - 1]) by {
                                    if i < n - 1 {
                                        assert(m0[i] < m0[n - 1]);
                                    }
                                }
                            }
                        }
                    }
                }
                assert forall|bb: int| 0 <= bb < g1.len() implies #[trigger] region_bucket_upto(g1, bb, s, p as int) by {
                    if bb != b {
                        assert(region_bucket_upto(g0, bb, s, p as int));
                    } else {
                        assert(region_bucket_upto(g0, bb, s, p as int));
                        assert forall|k: int| 0 <= k < g1[bb].members@.len() implies (#[trigger] g1[bb].members@[k]) <= p
                            && s[g1[bb].members@[k] as int].regions.contains(g1[bb].key@) by {
                            if k < n {
                                assert(g1[bb].members@[k] == m0[k]);
                            }
                        }
                    }
                }
                assert forall|r: Seq<char>, q: int| #[trigger] regions_has(g0, r, q) implies regions_has(g1, r, q) by {
                    let bb = choose|bb: int| 0 <= bb < g0.len() && (#[trigger] g0[bb]).key@ == r && g0[bb].members@.contains(q as usize);
                    let k = choose|k: int| 0 <= k < g0[bb].members@.len() && g0[bb].members@[k] == q as usize;
                    assert(g1[bb].members@[k] == q as usize);
                }
                assert(g1[b as int].members@.contains(p));
            }
        }
    } else {
        let mut members: Vec<usize> = Vec::new();
        members.push(p);
        regions.insert(b, RegionBucket { key, members });
        proof {
            let g1 = regions@;
            assert(g1[b as int].members@ == seq![p]);
            assert(g1[b as int].members@[0] == p);
            assert forall|i: int, j: int| 0 <= i < j < g1.len() implies lex_lt((#[trigger] g1[i]).key@, (#[trigger] g1[j]).key@) by {
                if j < b {
                    assert(lex_lt(g0[i].key@, g0[j].key@));
                } else if j == b {
                    assert(lex_lt(g0[i].key@, kv));
                } else if i < b {
                    assert(lex_lt(g0[i].key@, kv));
                    assert(lex_lt(kv, g0[j - 1].key@));
                    lemma_lex_transitive(g0[i].key@, kv, g0[j - 1].key@);
                } else if i == b {
                    assert(lex_lt(kv, g0[j - 1].key@));
                } else {
                    assert(lex_lt(g0[i - 1].key@, g0[j - 1].key@));
                }
            }
            assert forall|bb: int| 0 <= bb < g1.len() implies #[trigger] region_bucket_upto(g1, bb, s, p as int) by {
                if bb < b {
                    assert(g1[bb] == g0[bb]);
                    assert(region_bucket_upto(g0, bb, s, p as int));
                } else if bb > b {
                    assert(g1[bb] == g0[bb - 1]);
                    assert(region_bucket_upto(g0, bb - 1, s, p as int));
                }
            }
            assert forall|r: Seq<char>, q: int| #[trigger] regions_has(g0, r, q) implies regions_has(g1, r, q) by {
                let bb = choose|bb: int| 0 <= bb < g0.len() && (#[trigger] g0[bb]).key@ == r && g0[bb].members@.contains(q as usize);
                if bb < b {
                    assert(g1[bb] == g0[bb]);
                } else {
                    assert(g1[bb + 1] == g0[bb]);
                }
            }
            assert(g1[b as int].members@.contains(p));
        }
    }
}

/// The region index of the snapshot `entries`: empty region names are not
/// indexed.
fn build_regions<S>(entries: &Vec<StoredSubscription<S>>) -> (regions: Vec<RegionBucket>)
    ensures
        regions_index(regions@, entries_view(entries@)),
{
    let ghost s = entries_view(entries@);
    let mut regions: Vec<RegionBucket> = Vec::new();
    let mut p: usize = 0;
    while p < entries.len()
        invariant
            s == entries_view(entries@),
            p <= entries.len(),
            regions_sorted(regions@),
            forall|b: int| 0 <= b < regions.len() ==> #[trigger] region_bucket_upto(regions@, b, s, p - 1),
            forall|q: int, r: Seq<char>|
                0 <= q < p && #[trigger] s[q].regions.contains(r) && r.len() > 0 ==> #[trigger] regions_has(regions@, r, q),
        decreases entries.len() - p,
    {
        let names = &entries[p].regions;
        assert(crate::db::subscription_store::strings_view(names@) == s[p as int].regions);
        assert forall|b: int| 0 <= b < regions.len() implies #[trigger] region_bucket_upto(regions@, b, s, p as int) by {
            assert(region_bucket_upto(regions@, b, s, p - 1));
        }
        let mut k: usize = 0;
        while k < names.len()
            invariant
                s == entries_view(entries@),
                p < entries.len(),
                crate::db::subscription_store::strings_view(names@) == s[p as int].regions,
                k <= names.len(),
                regions_sorted(regions@),
                forall|b: int| 0 <= b < regions.len() ==> #[trigger] region_bucket_upto(regions@, b, s, p as int),
                forall|q: int, r: Seq<char>|
                    0 <= q < p && #[trigger] s[q].regions.contains(r) && r.len() > 0 ==> #[trigger] regions_has(regions@, r, q),
                forall|i: int| 0 <= i < k && (#[trigger] names@[i])@.len() > 0 ==> regions_has(regions@, names@[i]@, p as int),
            decreases names.len() - k,
        {
            let key = chars_of(names[k].as_str());
            if key.len() > 0 {
                proof {
                    assert(s[p as int].regions[k as int] == names@[k as int]@);
                    assert(s[p as int].regions.contains(key@));
                }
                let ghost before = regions@;
                region_add::<S>(&mut regions, key, p, Ghost(s));
                proof {
                    assert forall|q: int, r: Seq<char>|
                        0 <= q < p && #[trigger] s[q].regions.contains(r) && r.len() > 0 implies #[trigger] regions_has(regions@, r, q) by {
                        assert(regions_has(before, r, q));
                    }
                    assert forall|i: int| 0 <= i < k + 1 && (#[trigger] names@[i])@.len() > 0 implies regions_has(regions@, names@[i]@, p as int) by {
                        if i < k {
                            assert(regions_has(before, names@[i]@, p as int));
                        }
                    }
                }
            }
            k += 1;
        }
        proof {
            assert forall|q: int, r: Seq<char>|
                0 <= q < p + 1 && #[trigger] s[q].regions.contains(r) && r.len() > 0 implies #[trigger] regions_has(regions@, r, q) by {
                if q == p {
                    let i = choose|i: int| 0 <= i < s[q].regions.len() && s[q].regions[i] == r;
                    assert(names@[i]@ == r);
                }
            }
        }
        p += 1;
    }
    proof {
        assert forall|b: int| 0 <= b < regions.len() implies #[trigger] region_bucket_sound(regions@, b, s) by {
            assert(region_bucket_upto(regions@, b, s, p - 1));
            assert forall|k: int| 0 <= k < regions@[b].members@.len() implies (#[trigger] regions@[b].members@[k]) < s.len()
                && s[regions@[b].members@[k] as int].regions.contains(regions@[b].key@) by {}
        }
    }
    regions
}

impl SubscriptionIndex {
    /// The index of the snapshot `entries`.
    pub fn build<S>(entries: &Vec<StoredSubscription<S>>) -> (ix: Self)
        ensures
            ix.indexes(entries_view(entries@)),
    {
        SubscriptionIndex { grid: build_grid(entries), regions: build_regions(entries) }
    }
}

/// The bookkeeping of a query over the snapshot `s`: `seen` marks exactly
/// the positions found so far, found once each, and all of them concern
/// the alert.
pub open spec fn query_state<S>(
    s: Seq<EntryView<S>>,
    seen: Seq<bool>,
    found: Seq<usize>,
    cells: Seq<(i16, i16)>,
    regions: Seq<Seq<char>>,
) -> bool {
    &&& seen.len() == s.len()
    &&& s.len() <= usize::MAX
    &&& forall|m: int| 0 <= m < s.len() ==> (#[trigger] seen[m] <==> found.contains(m as usize))
    &&& forall|i: int, j: int| 0 <= i < j < found.len() ==> found[i] != found[j]
    &&& forall|i: int| 0 <= i < found.len() ==> (#[trigger] found[i]) < s.len() && entry_matches(s[found[i] as int], cells, regions)
}

/// Adds the members `ms` not found yet to `found`.
fn visit_members<S>(
    ms: &Vec<usize>,
    seen: &mut Vec<bool>,
    found: &mut Vec<usize>,
    Ghost(s): Ghost<Seq<EntryView<S>>>,
    Ghost(cells): Ghost<Seq<(i16, i16)>>,
    Ghost(regions): Ghost<Seq<Seq<char>>>,
)
    requires
        query_state(s, old(seen)@, old(found)@, cells, regions),
        forall|k: int| 0 <= k < ms.len() ==> (#[trigger] ms@[k]) < s.len() && entry_matches(s[ms@[k] as int], cells, regions),
    ensures
        query_state(s, final(seen)@, final(found)@, cells, regions),
        forall|k: int| 0 <= k < ms.len() ==> final(seen)@[#[trigger] ms@[k] as int],
        forall|m: int| 0 <= m < s.len() && old(seen)@[m] ==> final(seen)@[m],
{
    let ghost seen0 = seen@;
    let mut k: usize = 0;
    while k < ms.len()
        invariant
            k <= ms.len(),
            query_state(s, seen@, found@, cells, regions),
            forall|k2: int| 0 <= k2 < ms.len() ==> (#[trigger] ms@[k2]) < s.len() && entry_matches(s[ms@[k2] as int], cells, regions),
            forall|k2: int| 0 <= k2 < k ==> seen@[#[trigger] ms@[k2] as int],
            forall|m: int| 0 <= m < s.len() && seen0[m] ==> seen@[m],
        decreases ms.len() - k,
    {
        let m = ms[k];
        if !seen[m] {
            let ghost f0 = found@;
            let ghost sn0 = seen@;
            seen.set(m, true);
            found.push(m);
            proof {
                assert(found@ == f0.push(m));
                assert(!f0.contains(m));
                assert forall|x: int| 0 <= x < s.len() implies (#[trigger] seen@[x] <==> found@.contains(x as usize)) by {
                    if x != m {
                        assert(seen@[x] == sn0[x]);
                        if found@.contains(x as usize) {
                            let i = choose|i: int| 0 <= i < found@.len() && found@[i] == x as usize;
                            if i == f0.len() {
                                assert(found@[i] == m);
                            }
                            assert(i < f0.len());
                            assert(f0[i] == x as usize);
                        }
                        if f0.contains(x as usize) {
                            let i = choose|i: int| 0 <= i < f0.len() && f0[i] == x as usize;
                            assert(found@[i] == x as usize);
                        }
                    } else {
                        assert(found@[f0.len() as int] == m);
                    }
                }
                assert forall|i: int, j: int| 0 <= i < j < found@.len() implies found@[i] != found@[j] by {
                    if j == f0.len() {
                        assert(f0.contains(f0[i]));
                    }
                }
            }
        }
        k += 1;
    }
}

impl SubscriptionIndex {
    /// The positions, in the snapshot `entries`, of the subscriptions that an
    /// alert covering `cells` and naming `regions` concerns, each once; empty
    /// region names match nothing.
    pub fn query<S>(&self, entries: &Vec<StoredSubscription<S>>, cells: &Vec<(i16, i16)>, regions: &Vec<String>) -> (r: Vec<usize>)
        requires
            self.indexes(entries_view(entries@)),
        ensures
            forall|i: int, j: int| 0 <= i < j < r.len() ==> r@[i] != r@[j],
            forall|i: int| 0 <= i < r.len() ==> r@[i] < entries.len(),
            forall|p: int|
                0 <= p < entries.len() ==> (r@.contains(p as usize) <==> entry_matches(
                    #[trigger] entries_view(entries@)[p],
                    cells@,
                    strings_view(regions@),
                )),
    {
        let ghost s = entries_view(entries@);
        let ghost rv = strings_view(regions@);
        let n = entries.len();
        let mut seen: Vec<bool> = Vec::new();
        let mut i: usize = 0;
        while i < n
            invariant
                i <= n,
                seen@.len() == i,
                forall|m: int| 0 <= m < i ==> !(#[trigger] seen@[m]),
            decreases n - i,
        {
            seen.push(false);
            i += 1;
        }
        let mut found: Vec<usize> = Vec::new();
        assert(query_state(s, seen@, found@, cells@, rv));
        let mut ci: usize = 0;
        while ci < cells.len()
            invariant
                s == entries_view(entries@),
                rv == strings_view(regions@),
                n == s.len(),
                self.indexes(s),
                ci <= cells.len(),
                query_state(s, seen@, found@, cells@, rv),
                forall|i2: int, m: int| 0 <= i2 < ci && 0 <= m < n && s[m].cells.contains(#[trigger] cells@[i2]) ==> #[trigger] seen@[m],
            decreases cells.len() - ci,
        {
            let c = cells[ci];
            let (b, hit) = grid_search(&self.grid, c);
            let ghost seen0 = seen@;
            if hit {
                let ms = &self.grid[b].members;
                proof {
                    assert(cell_bucket_sound(self.grid@, b as int, s));
                    assert forall|k: int| 0 <= k < ms.len() implies (#[trigger] ms@[k]) < s.len() && entry_matches(s[ms@[k] as int], cells@, rv) by {
                        let m = ms@[k] as int;
                        assert(s[m].cells.contains(c));
                        let x = choose|x: int| 0 <= x < s[m].cells.len() && s[m].cells[x] == c;
                        assert(s[m].cells[x] == cells@[ci as int]);
                    }
                }
                visit_members::<S>(ms, &mut seen, &mut found, Ghost(s), Ghost(cells@), Ghost(rv));
                proof {
                    assert forall|m: int| 0 <= m < n && s[m].cells.contains(c) implies #[trigger] seen@[m] by {
                        assert(grid_has(self.grid@, c, m));
                        let bb = choose|bb: int| 0 <= bb < self.grid@.len() && (#[trigger] self.grid@[bb]).cell == c && self.grid@[bb].members@.contains(m as usize);
                        assert(bb == b);
                        let k = choose|k: int| 0 <= k < ms@.len() && ms@[k] == m as usize;
                        assert(seen@[ms@[k] as int]);
                    }
                }
            } else {
                proof {
                    assert forall|m: int| 0 <= m < n && s[m].cells.contains(c) implies #[trigger] seen@[m] by {
                        assert(grid_has(self.grid@, c, m));
                        let bb = choose|bb: int| 0 <= bb < self.grid@.len() && (#[trigger] self.grid@[bb]).cell == c && self.grid@[bb].members@.contains(m as usize);
                        assert(self.grid@[bb].cell != c);
                    }
                }
            }
            proof {
                assert forall|i2: int, m: int| 0 <= i2 < ci + 1 && 0 <= m < n && s[m].cells.contains(#[trigger] cells@[i2]) implies #[trigger] seen@[m] by {
                    if i2 < ci {
                        assert(seen0[m]);
                    }
                }
            }
            ci += 1;
        }
        let mut ri: usize = 0;
        while ri < regions.len()
            invariant
                s == entries_view(entries@),
                rv == strings_view(regions@),
                n == s.len(),
                self.indexes(s),
                ri <= regions.len(),
                query_state(s, seen@, found@, cells@, rv),
                forall|i2: int, m: int| 0 <= i2 < cells.len() && 0 <= m < n && s[m].cells.contains(#[trigger] cells@[i2]) ==> #[trigger] seen@[m],
                forall|j2: int, m: int| 0 <= j2 < ri && 0 <= m < n && rv[j2].len() > 0 && s[m].regions.contains(#[trigger] rv[j2]) ==> #[trigger] seen@[m],
            decreases regions.len() - ri,
        {
            let key = chars_of(regions[ri].as_str());
            let ghost seen0 = seen@;
            assert(key@ == rv[ri as int]);
            if key.len() > 0 {
                let (b, hit) = region_search(&self.regions, &key);
                if hit {
                    let ms = &self.regions[b].members;
                    proof {
                        assert(region_bucket_sound(self.regions@, b as int, s));
                        assert forall|k: int| 0 <= k < ms.len() implies (#[trigger] ms@[k]) < s.len() && entry_matches(s[ms@[k] as int], cells@, rv) by {
                            let m = ms@[k] as int;
                            assert(s[m].regions.contains(key@));
                            let x = choose|x: int| 0 <= x < s[m].regions.len() && s[m].regions[x] == key@;
                            assert(s[m].regions[x] == rv[ri as int]);
                        }
                    }
                    visit_members::<S>(ms, &mut seen, &mut found, Ghost(s), Ghost(cells@), Ghost(rv));
                    proof {
                        assert forall|m: int| 0 <= m < n && s[m].regions.contains(key@) implies #[trigger] seen@[m] by {
                            assert(regions_has(self.regions@, key@, m));
                            let bb = choose|bb: int| 0 <= bb < self.regions@.len() && (#[trigger] self.regions@[bb]).key@ == key@ && self.regions@[bb].members@.contains(m as usize);
                            assert(bb == b);
                            let k = choose|k: int| 0 <= k < ms@.len() && ms@[k] == m as usize;
                            assert(seen@[ms@[k] as int]);
                        }
                    }
                } else {
                    proof {
                        assert forall|m: int| 0 <= m < n && s[m].regions.contains(key@) implies #[trigger] seen@[m] by {
                            assert(regions_has(self.regions@, key@, m));
                            let bb = choose|bb: int| 0 <= bb < self.regions@.len() && (#[trigger] self.regions@[bb]).key@ == key@ && self.regions@[bb].members@.contains(m as usize);
                            assert(self.regions@[bb].key@ != key@);
                        }
                    }
                }
            }
            proof {
                assert forall|j2: int, m: int| 0 <= j2 < ri + 1 && 0 <= m < n && rv[j2].len() > 0 && s[m].regions.contains(#[trigger] rv[j2]) implies #[trigger] seen@[m] by {
                    if j2 < ri {
                        assert(seen0[m]);
                    }
                }
            }
            ri += 1;
        }
        proof {
            assert forall|p: int| 0 <= p < n implies (found@.contains(p as usize) <==> entry_matches(#[trigger] s[p], cells@, rv)) by {
                if found@.contains(p as usize) {
                    let i = choose|i: int| 0 <= i < found@.len() && found@[i] == p as usize;
                    assert(entry_matches(s[found@[i] as int], cells@, rv));
                }
                if cells_meet(s[p].cells, cells@) {
                    let (x, j) = choose|x: int, j: int| 0 <= x < s[p].cells.len() && 0 <= j < cells@.len() && #[trigger] s[p].cells[x] == #[trigger] cells@[j];
                    assert(s[p].cells.contains(cells@[j]));
                    assert(seen@[p]);
                }
                if regions_meet(s[p].regions, rv) {
                    let (x, j) = choose|x: int, j: int| 0 <= x < s[p].regions.len() && 0 <= j < rv.len() && rv[j].len() > 0 && #[trigger] s[p].regions[x] == #[trigger] rv[j];
                    assert(s[p].regions.contains(rv[j]));
                    assert(seen@[p]);
                }
            }
        }
        found
    }
}

} // verus!
