//! The in-memory side of the subscription store: every stored subscription
//! keyed by Bark ID, with a version that changes on every write, and the
//! queries that pick the subscriptions an alert may concern.
use crate::models::subscription::mask_bark_id;
use crate::routes::subscribe::{LocationText, LocationTextView, locations_view};
use crate::db::subscription_index::SubscriptionIndex;
use crate::text::{chars_of, str_eq};
use vstd::prelude::*;

verus! {

broadcast use vstd::string::group_string_axioms;

// ------------------------------------------------------------ key order

/// Lexicographic order of character sequences by code point.
pub open spec fn lex_lt(a: Seq<char>, b: Seq<char>) -> bool
    decreases a.len(),
{
    if a.len() == 0 {
        b.len() > 0
    } else if b.len() == 0 {
        false
    } else if a[0] != b[0] {
        (a[0] as u32) < (b[0] as u32)
    } else {
        lex_lt(a.drop_first(), b.drop_first())
    }
}

pub(crate) proof fn lemma_lex_irreflexive(a: Seq<char>)
    ensures
        !lex_lt(a, a),
    decreases a.len(),
{
    if a.len() > 0 {
        lemma_lex_irreflexive(a.drop_first());
    }
}

pub(crate) proof fn lemma_lex_total(a: Seq<char>, b: Seq<char>)
    ensures
        a != b ==> lex_lt(a, b) || lex_lt(b, a),
        lex_lt(a, b) ==> !lex_lt(b, a),
    decreases a.len(),
{
    if a.len() > 0 && b.len() > 0 {
        lemma_lex_total(a.drop_first(), b.drop_first());
        if a[0] != b[0] {
            vstd::utf8::char_u32_cast(a[0], a[0] as u32);
            vstd::utf8::char_u32_cast(b[0], b[0] as u32);
        }
        if a[0] == b[0] && a.drop_first() == b.drop_first() {
            assert(a == seq![a[0]] + a.drop_first());
            assert(b == seq![b[0]] + b.drop_first());
        }
    } else if a.len() == 0 && b.len() == 0 {
        assert(a == b);
    }
}

pub(crate) proof fn lemma_lex_transitive(a: Seq<char>, b: Seq<char>, c: Seq<char>)
    requires
        lex_lt(a, b),
        lex_lt(b, c),
    ensures
        lex_lt(a, c),
    decreases a.len(),
{
    if a.len() > 0 && b.len() > 0 && c.len() > 0 {
        if a[0] == b[0] && b[0] == c[0] {
            lemma_lex_transitive(a.drop_first(), b.drop_first(), c.drop_first());
        }
    }
}

proof fn lemma_lex_common_prefix(a: Seq<char>, b: Seq<char>, i: int)
    requires
        0 <= i <= a.len(),
        i <= b.len(),
        a.take(i) == b.take(i),
    ensures
        lex_lt(a, b) == lex_lt(a.skip(i), b.skip(i)),
    decreases i,
{
    if i > 0 {
        assert(a[0] == a.take(i)[0]);
        assert(b[0] == b.take(i)[0]);
        let a1 = a.drop_first();
        let b1 = b.drop_first();
        assert(a1.take(i - 1) == a.take(i).drop_first());
        assert(b1.take(i - 1) == b.take(i).drop_first());
        lemma_lex_common_prefix(a1, b1, i - 1);
        assert(a1.skip(i - 1) == a.skip(i));
        assert(b1.skip(i - 1) == b.skip(i));
    } else {
        assert(a.skip(0) == a);
        assert(b.skip(0) == b);
    }
}

/// Whether `a` comes before `b` in [`lex_lt`] order.
pub(crate) fn lex_less(a: &Vec<char>, b: &Vec<char>) -> (r: bool)
    ensures
        r == lex_lt(a@, b@),
{
    let mut i: usize = 0;
    while i < a.len() && i < b.len() && a[i] == b[i]
        invariant
            i <= a.len(),
            i <= b.len(),
            a@.take(i as int) == b@.take(i as int),
        decreases a.len() - i,
    {
        assert(a@.take(i + 1) == a@.take(i as int).push(a@[i as int]));
        assert(b@.take(i + 1) == b@.take(i as int).push(b@[i as int]));
        i += 1;
    }
    proof {
        lemma_lex_common_prefix(a@, b@, i as int);
    }
    let r = if i == a.len() {
        i < b.len()
    } else if i == b.len() {
        false
    } else {
        (a[i] as u32) < (b[i] as u32)
    };
    proof {
        let sa = a@.skip(i as int);
        let sb = b@.skip(i as int);
        if i < a.len() && i < b.len() {
            assert(sa[0] == a@[i as int]);
            assert(sb[0] == b@[i as int]);
        }
    }
    r
}

/// Whether `a` and `b` hold the same characters.
pub(crate) fn chars_equal(a: &Vec<char>, b: &Vec<char>) -> (r: bool)
    ensures
        r == (a@ == b@),
{
    if a.len() != b.len() {
        return false;
    }
    let mut i: usize = 0;
    while i < a.len()
        invariant
            a.len() == b.len(),
            i <= a.len(),
            forall|k: int| 0 <= k < i ==> a@[k] == b@[k],
        decreases a.len() - i,
    {
        if a[i] != b[i] {
            return false;
        }
        i += 1;
    }
    assert(a@ == b@);
    true
}

// ---------------------------------------------------------------- cache

/// One stored subscription: its record `S`, the version it was stored
/// under, and the keys under which alerts find it: the grid cells of its
/// watched locations and its administrative region names.
pub struct StoredSubscription<S> {
    pub bark_id: String,
    pub version: u64,
    pub record: S,
    pub cells: Vec<(i16, i16)>,
    pub regions: Vec<String>,
}

/// The mathematical content of a [`StoredSubscription`].
pub struct EntryView<S> {
    pub bark_id: Seq<char>,
    pub version: u64,
    pub record: S,
    pub cells: Seq<(i16, i16)>,
    pub regions: Seq<Seq<char>>,
}

/// The views of a sequence of strings.
pub open spec fn strings_view(v: Seq<String>) -> Seq<Seq<char>> {
    v.map_values(|s: String| s@)
}

impl<S> View for StoredSubscription<S> {
    type V = EntryView<S>;

    open spec fn view(&self) -> EntryView<S> {
        EntryView {
            bark_id: self.bark_id@,
            version: self.version,
            record: self.record,
            cells: self.cells@,
            regions: strings_view(self.regions@),
        }
    }
}

/// The views of a sequence of stored subscriptions.
pub open spec fn entries_view<S>(v: Seq<StoredSubscription<S>>) -> Seq<EntryView<S>> {
    v.map_values(|e: StoredSubscription<S>| e@)
}

/// No two entries of `s` have the same Bark ID.
pub open spec fn ids_unique<S>(s: Seq<EntryView<S>>) -> bool {
    forall|i: int, j: int| 0 <= i < s.len() && 0 <= j < s.len() && i != j ==> (#[trigger] s[i]).bark_id != (#[trigger] s[j]).bark_id
}

/// The entry of `s` with Bark ID `k`, if there is one.
pub open spec fn lookup_in<S>(s: Seq<EntryView<S>>, k: Seq<char>) -> Option<EntryView<S>> {
    if exists|i: int| 0 <= i < s.len() && (#[trigger] s[i]).bark_id == k {
        Some(s[choose|i: int| 0 <= i < s.len() && (#[trigger] s[i]).bark_id == k])
    } else {
        None
    }
}

proof fn lemma_lookup_at<S>(s: Seq<EntryView<S>>, i: int)
    requires
        ids_unique(s),
        0 <= i < s.len(),
    ensures
        lookup_in(s, s[i].bark_id) == Some(s[i]),
{
    let k = s[i].bark_id;
    assert(exists|j: int| 0 <= j < s.len() && (#[trigger] s[j]).bark_id == k);
    let j = choose|j: int| 0 <= j < s.len() && (#[trigger] s[j]).bark_id == k;
    assert(j == i);
}

proof fn lemma_lookup_absent<S>(s: Seq<EntryView<S>>, k: Seq<char>)
    requires
        forall|i: int| 0 <= i < s.len() ==> (#[trigger] s[i]).bark_id != k,
    ensures
        lookup_in(s, k) is None,
{
}

/// The cache's state: Bark IDs in sorted order beside their entries, the
/// next version to hand out, and the index with whether it is up to date.
struct CacheState<S> {
    keys: Vec<Vec<char>>,
    entries: Vec<StoredSubscription<S>>,
    next_version: u64,
    index: SubscriptionIndex,
    index_fresh: bool,
}

/// Why a write to the cache was refused.
#[derive(Debug, Clone, Copy, PartialEq, Eq, Structural)]
pub enum CacheError {
    /// Every version number has been handed out.
    VersionsExhausted,
}

impl<S> CacheState<S> {
    /// The stored subscriptions, in Bark ID order.
    pub closed spec fn snapshot_spec(&self) -> Seq<EntryView<S>> {
        entries_view(self.entries@)
    }

    /// The version the next write will get.
    pub closed spec fn next_version_spec(&self) -> u64 {
        self.next_version
    }

    /// The stored subscription with Bark ID `k`.
    pub open spec fn lookup(&self, k: Seq<char>) -> Option<EntryView<S>> {
        lookup_in(self.snapshot_spec(), k)
    }

    /// The internal consistency of the cache.
    pub closed spec fn wf(&self) -> bool {
        &&& self.keys.len() == self.entries.len()
        &&& forall|i: int| 0 <= i < self.keys.len() ==> (#[trigger] self.keys@[i])@ == self.entries@[i].bark_id@
        &&& forall|i: int, j: int|
            0 <= i < j < self.keys.len() ==> lex_lt((#[trigger] self.keys@[i])@, (#[trigger] self.keys@[j])@)
        &&& forall|i: int| 0 <= i < self.entries.len() ==> (#[trigger] self.entries@[i]).version < self.next_version
        &&& self.index_fresh ==> self.index.indexes(entries_view(self.entries@))
    }

    /// A well-formed cache holds each Bark ID at most once, and every stored
    /// version is below the next one to be handed out.
    pub proof fn lemma_wf_facts(&self)
        requires
            self.wf(),
        ensures
            ids_unique(self.snapshot_spec()),
            forall|i: int| 0 <= i < self.snapshot_spec().len() ==> (#[trigger] self.snapshot_spec()[i]).version < self.next_version_spec(),
    {
        let s = self.snapshot_spec();
        assert forall|i: int, j: int| 0 <= i < s.len() && 0 <= j < s.len() && i != j implies (#[trigger] s[i]).bark_id
            != (#[trigger] s[j]).bark_id by {
            assert(s[i].bark_id == self.keys@[i]@);
            assert(s[j].bark_id == self.keys@[j]@);
            if i < j {
                lemma_lex_irreflexive(self.keys@[i]@);
                assert(lex_lt(self.keys@[i]@, self.keys@[j]@));
            } else {
                lemma_lex_irreflexive(self.keys@[j]@);
                assert(lex_lt(self.keys@[j]@, self.keys@[i]@));
            }
        }
        assert forall|i: int| 0 <= i < s.len() implies (#[trigger] s[i]).version < self.next_version_spec() by {
            assert(s[i].version == self.entries@[i].version);
        }
    }

    pub fn new() -> (c: Self)
        ensures
            c.wf(),
            c.snapshot_spec().len() == 0,
            c.next_version_spec() == 1,
    {
        CacheState {
            keys: Vec::new(),
            entries: Vec::new(),
            next_version: 1,
            index: SubscriptionIndex::build(&Vec::<StoredSubscription<S>>::new()),
            index_fresh: false,
        }
    }

    /// Number of stored subscriptions.
    pub fn len(&self) -> (n: usize)
        requires
            self.wf(),
        ensures
            n == self.snapshot_spec().len(),
    {
        self.entries.len()
    }

    /// The stored subscriptions, in Bark ID order.
    pub fn snapshot(&self) -> (v: &Vec<StoredSubscription<S>>)
        ensures
            entries_view(v@) == self.snapshot_spec(),
    {
        &self.entries
    }

    /// The position where `key` is or would be: every key before it is
    /// smaller, none from it on is.
    fn search(&self, key: &Vec<char>) -> (r: (usize, bool))
        requires
            self.wf(),
        ensures
            r.0 <= self.keys.len(),
            forall|i: int| 0 <= i < r.0 ==> lex_lt((#[trigger] self.keys@[i])@, key@),
            forall|i: int| r.0 <= i < self.keys.len() ==> !lex_lt((#[trigger] self.keys@[i])@, key@),
            r.1 == (r.0 < self.keys.len() && self.keys@[r.0 as int]@ == key@),
    {
        let mut lo: usize = 0;
        let mut hi: usize = self.keys.len();
        while lo < hi
            invariant
                self.wf(),
                lo <= hi <= self.keys.len(),
                forall|i: int| 0 <= i < lo ==> lex_lt((#[trigger] self.keys@[i])@, key@),
                forall|i: int| hi <= i < self.keys.len() ==> !lex_lt((#[trigger] self.keys@[i])@, key@),
            decreases hi - lo,
        {
            let mid = lo + (hi - lo) / 2;
            if lex_less(&self.keys[mid], key) {
                proof {
                    assert forall|i: int| 0 <= i < mid + 1 implies lex_lt((#[trigger] self.keys@[i])@, key@) by {
                        if i < mid {
                            assert(lex_lt(self.keys@[i]@, self.keys@[mid as int]@));
                            lemma_lex_transitive(self.keys@[i]@, self.keys@[mid as int]@, key@);
                        }
                    }
                }
                lo = mid + 1;
            } else {
                proof {
                    assert forall|i: int| mid <= i < self.keys.len() implies !lex_lt((#[trigger] self.keys@[i])@, key@) by {
                        if i > mid {
                            assert(lex_lt(self.keys@[mid as int]@, self.keys@[i]@));
                            if lex_lt(self.keys@[i]@, key@) {
                                lemma_lex_transitive(self.keys@[mid as int]@, self.keys@[i]@, key@);
                            }
                        }
                    }
                }
                hi = mid;
            }
        }
        let found = lo < self.keys.len() && chars_equal(&self.keys[lo], key);
        (lo, found)
    }

    /// From a search result: whether and where Bark ID `key` is stored.
    proof fn lemma_search_result(&self, key: Seq<char>, p: int, found: bool)
        requires
            self.wf(),
            0 <= p <= self.keys.len(),
            forall|i: int| 0 <= i < p ==> lex_lt((#[trigger] self.keys@[i])@, key),
            forall|i: int| p <= i < self.keys.len() ==> !lex_lt((#[trigger] self.keys@[i])@, key),
            found == (p < self.keys.len() && self.keys@[p]@ == key),
        ensures
            found ==> self.lookup(key) == Some(self.snapshot_spec()[p]),
            !found ==> self.lookup(key) is None,
            !found ==> forall|i: int| 0 <= i < self.keys.len() ==> (#[trigger] self.keys@[i])@ != key,
            !found ==> forall|i: int| p <= i < self.keys.len() ==> lex_lt(key, (#[trigger] self.keys@[i])@),
    {
        self.lemma_wf_facts();
        let s = self.snapshot_spec();
        if found {
            assert(s[p].bark_id == key);
            lemma_lookup_at(s, p);
        } else {
            lemma_lex_irreflexive(key);
            assert forall|i: int| 0 <= i < self.keys.len() implies (#[trigger] self.keys@[i])@ != key by {
                if i > p {
                    assert(lex_lt(self.keys@[p]@, self.keys@[i]@));
                }
            }
            assert forall|i: int| p <= i < self.keys.len() implies lex_lt(key, (#[trigger] self.keys@[i])@) by {
                lemma_lex_total(key, self.keys@[i]@);
            }
            assert forall|i: int| 0 <= i < s.len() implies (#[trigger] s[i]).bark_id != key by {
                assert(s[i].bark_id == self.keys@[i]@);
            }
            lemma_lookup_absent(s, key);
        }
    }

    /// The stored subscription with Bark ID `bark_id`.
    pub fn get(&self, bark_id: &str) -> (r: Option<&StoredSubscription<S>>)
        requires
            self.wf(),
        ensures
            match r {
                Some(e) => self.lookup(bark_id@) == Some(e@),
                None => self.lookup(bark_id@) is None,
            },
    {
        let key = chars_of(bark_id);
        let (p, found) = self.search(&key);
        proof {
            self.lemma_search_result(key@, p as int, found);
        }
        if found {
            Some(&self.entries[p])
        } else {
            None
        }
    }

    /// Stores `record` under `bark_id` with a version no earlier write got,
    /// replacing what was stored under that Bark ID; other Bark IDs keep
    /// what they had. Refused only when every version has been handed out.
    pub fn upsert(&mut self, bark_id: String, record: S, cells: Vec<(i16, i16)>, regions: Vec<String>) -> (r: Result<u64, CacheError>)
        requires
            old(self).wf(),
        ensures
            final(self).wf(),
            old(self).next_version_spec() == u64::MAX ==> {
                &&& r == Err::<u64, CacheError>(CacheError::VersionsExhausted)
                &&& final(self).snapshot_spec() == old(self).snapshot_spec()
                &&& final(self).next_version_spec() == old(self).next_version_spec()
            },
            old(self).next_version_spec() < u64::MAX ==> {
                &&& r == Ok::<u64, CacheError>(old(self).next_version_spec())
                &&& final(self).next_version_spec() == old(self).next_version_spec() + 1
                &&& final(self).lookup(bark_id@) == Some(EntryView {
                    bark_id: bark_id@,
                    version: old(self).next_version_spec(),
                    record,
                    cells: cells@,
                    regions: strings_view(regions@),
                })
                &&& old(self).lookup(bark_id@) matches Some(e) ==> e.version < old(self).next_version_spec()
                &&& forall|k: Seq<char>| k != bark_id@ ==> #[trigger] final(self).lookup(k) == old(self).lookup(k)
                &&& final(self).snapshot_spec().len() == old(self).snapshot_spec().len() + if old(self).lookup(bark_id@) is None { 1int } else { 0int }
            },
    {
        if self.next_version == u64::MAX {
            return Err(CacheError::VersionsExhausted);
        }
        let v = self.next_version;
        let key = chars_of(bark_id.as_str());
        let (p, found) = self.search(&key);
        let ghost old_s = self.snapshot_spec();
        let ghost old_keys = self.keys@;
        proof {
            self.lemma_search_result(key@, p as int, found);
            self.lemma_wf_facts();
        }
        let entry = StoredSubscription { bark_id, version: v, record, cells, regions };
        let ghost ev = entry@;
        if found {
            self.entries.set(p, entry);
        } else {
            self.entries.insert(p, entry);
            self.keys.insert(p, key);
        }
        self.next_version = v + 1;
        self.index_fresh = false;
        proof {
            let new_s = self.snapshot_spec();
            if found {
                assert(new_s == old_s.update(p as int, ev));
                assert(self.keys@ == old_keys);
            } else {
                assert(new_s == old_s.insert(p as int, ev));
                assert(self.keys@ == old_keys.insert(p as int, key));
                assert forall|i: int, j: int| 0 <= i < j < self.keys.len() implies lex_lt(
                    (#[trigger] self.keys@[i])@,
                    (#[trigger] self.keys@[j])@,
                ) by {
                    if j < p {
                        assert(lex_lt(old_keys[i]@, old_keys[j]@));
                    } else if j == p {
                    } else if i < p {
                        assert(lex_lt(old_keys[i]@, key@));
                        assert(lex_lt(key@, old_keys[j - 1]@));
                        lemma_lex_transitive(old_keys[i]@, key@, old_keys[j - 1]@);
                    } else if i == p {
                    } else {
                        assert(lex_lt(old_keys[i - 1]@, old_keys[j - 1]@));
                    }
                }
            }
            assert(self.wf());
            self.lemma_wf_facts();
            let id = ev.bark_id;
            assert(new_s[p as int] == ev);
            lemma_lookup_at(new_s, p as int);
            assert forall|k: Seq<char>| k != id implies #[trigger] lookup_in(new_s, k) == lookup_in(old_s, k) by {
                if exists|i: int| 0 <= i < old_s.len() && (#[trigger] old_s[i]).bark_id == k {
                    let i = choose|i: int| 0 <= i < old_s.len() && (#[trigger] old_s[i]).bark_id == k;
                    lemma_lookup_at(old_s, i);
                    let j = if found || i < p { i } else { i + 1 };
                    assert(new_s[j] == old_s[i]);
                    lemma_lookup_at(new_s, j);
                } else {
                    assert forall|i: int| 0 <= i < new_s.len() implies (#[trigger] new_s[i]).bark_id != k by {
                        if i != p {
                            let oi = if found || i < p { i } else { i - 1 };
                            assert(new_s[i] == old_s[oi]);
                        }
                    }
                    lemma_lookup_absent(new_s, k);
                }
            }
        }
        Ok(v)
    }

    /// Removes the subscription stored under `bark_id`; says whether there
    /// was one. Other Bark IDs keep what they had.
    pub fn remove(&mut self, bark_id: &str) -> (r: bool)
        requires
            old(self).wf(),
        ensures
            final(self).wf(),
            r == old(self).lookup(bark_id@) is Some,
            final(self).lookup(bark_id@) is None,
            forall|k: Seq<char>| k != bark_id@ ==> #[trigger] final(self).lookup(k) == old(self).lookup(k),
            final(self).snapshot_spec().len() == old(self).snapshot_spec().len() - if r { 1int } else { 0int },
            final(self).next_version_spec() == old(self).next_version_spec(),
    {
        let key = chars_of(bark_id);
        let (p, found) = self.search(&key);
        let ghost old_s = self.snapshot_spec();
        let ghost old_keys = self.keys@;
        proof {
            self.lemma_search_result(key@, p as int, found);
            self.lemma_wf_facts();
        }
        if !found {
            return false;
        }
        self.keys.remove(p);
        self.entries.remove(p);
        self.index_fresh = false;
        proof {
            let new_s = self.snapshot_spec();
            assert(new_s == old_s.remove(p as int));
            assert(self.keys@ == old_keys.remove(p as int));
            assert forall|i: int, j: int| 0 <= i < j < self.keys.len() implies lex_lt(
                (#[trigger] self.keys@[i])@,
                (#[trigger] self.keys@[j])@,
            ) by {
                let oi = if i < p { i } else { i + 1 };
                let oj = if j < p { j } else { j + 1 };
                assert(self.keys@[i] == old_keys[oi]);
                assert(self.keys@[j] == old_keys[oj]);
            }
            assert(self.wf());
            self.lemma_wf_facts();
            assert forall|i: int| 0 <= i < new_s.len() implies (#[trigger] new_s[i]).bark_id != key@ by {
                let oi = if i < p { i } else { i + 1 };
                assert(new_s[i] == old_s[oi]);
                assert(old_s[p as int].bark_id == key@);
            }
            lemma_lookup_absent(new_s, key@);
            assert forall|k: Seq<char>| k != bark_id@ implies #[trigger] lookup_in(new_s, k) == lookup_in(old_s, k) by {
                if exists|i: int| 0 <= i < old_s.len() && (#[trigger] old_s[i]).bark_id == k {
                    let i = choose|i: int| 0 <= i < old_s.len() && (#[trigger] old_s[i]).bark_id == k;
                    lemma_lookup_at(old_s, i);
                    assert(i != p);
                    let j = if i < p { i } else { i - 1 };
                    assert(new_s[j] == old_s[i]);
                    lemma_lookup_at(new_s, j);
                } else {
                    assert forall|i: int| 0 <= i < new_s.len() implies (#[trigger] new_s[i]).bark_id != k by {
                        let oi = if i < p { i } else { i + 1 };
                        assert(new_s[i] == old_s[oi]);
                    }
                    lemma_lookup_absent(new_s, k);
                }
            }
        }
        true
    }

    /// Whether `version` is the version under which `bark_id` is stored now:
    /// a snapshot taken earlier is current only if no write or delete of
    /// that Bark ID happened since.
    pub fn is_current(&self, bark_id: &str, version: u64) -> (b: bool)
        requires
            self.wf(),
        ensures
            b == (self.lookup(bark_id@) matches Some(e) && e.version == version),
    {
        match self.get(bark_id) {
            Some(e) => e.version == version,
            None => false,
        }
    }
}

// ----------------------------------------------------------------- grid

/// `x` clamped into `lo..=hi`.
pub open spec fn clamp(x: int, lo: int, hi: int) -> int {
    if x < lo {
        lo
    } else if x > hi {
        hi
    } else {
        x
    }
}

/// A whole longitude brought into `-180..180` by whole turns.
pub open spec fn wrap_longitude(lon: int) -> int {
    (lon + 180) % 360 - 180
}

/// The grid cell of a location whose latitude and longitude round down to
/// `lat_floor` and `lon_floor`: latitude clamped into `-90..=89`, longitude
/// wrapped into `-180..=179`.
pub open spec fn grid_cell_spec(lat_floor: int, lon_floor: int) -> (i16, i16) {
    (clamp(lat_floor, -90, 89) as i16, wrap_longitude(lon_floor) as i16)
}

fn wrapped_longitude(lon: i64) -> (r: i16)
    requires
        -0x4000_0000_0000_0000 <= lon <= 0x4000_0000_0000_0000,
    ensures
        r == wrap_longitude(lon as int),
        -180 <= r <= 179,
{
    let x: i64 = lon + 180;
    let m: i64 = if x >= 0 {
        x % 360
    } else {
        let y: i64 = (-x) % 360;
        if y == 0 {
            0
        } else {
            360 - y
        }
    };
    proof {
        if x < 0 {
            let y = (-x) % 360;
            assert(-x == 360 * ((-x) / 360) + y) by (nonlinear_arith)
                requires y == (-x) % 360, -x > 0;
            if y == 0 {
                assert(x == 360 * (-((-x) / 360)));
                assert(x % 360 == 0) by (nonlinear_arith)
                    requires x == 360 * (-((-x) / 360));
            } else {
                assert(x == 360 * (-((-x) / 360) - 1) + (360 - y));
                assert(x % 360 == 360 - y) by (nonlinear_arith)
                    requires x == 360 * (-((-x) / 360) - 1) + (360 - y), 0 < 360 - y < 360;
            }
        }
    }
    (m - 180) as i16
}

/// The grid cell of a location whose latitude and longitude round down to
/// `lat_floor` and `lon_floor`.
pub fn grid_cell(lat_floor: i64, lon_floor: i64) -> (c: (i16, i16))
    requires
        -0x4000_0000_0000_0000 <= lon_floor <= 0x4000_0000_0000_0000,
    ensures
        c == grid_cell_spec(lat_floor as int, lon_floor as int),
{
    let lat: i16 = if lat_floor < -90 {
        -90
    } else if lat_floor > 89 {
        89
    } else {
        lat_floor as i16
    };
    (lat, wrapped_longitude(lon_floor))
}

/// The longitudes that a radius query covers on each latitude row.
#[derive(Debug, Clone, Copy, PartialEq, Eq, Structural)]
pub enum LonSpan {
    /// The radius reaches all the way round.
    Full,
    /// Whole longitudes `min..=max`, before wrapping.
    Range { min: i64, max: i64 },
}

/// The cells of one latitude row that a radius query visits, in order.
pub open spec fn row_cells(lat: i16, span: LonSpan) -> Seq<(i16, i16)> {
    match span {
        LonSpan::Full => Seq::new(360, |k: int| (lat, (k - 180) as i16)),
        LonSpan::Range { min, max } => if min <= max {
            Seq::new((max - min + 1) as nat, |k: int| (lat, wrap_longitude(min + k) as i16))
        } else {
            seq![]
        },
    }
}

/// The cells of rows `lo..hi`, row after row.
pub open spec fn rows_cells(lo: int, hi: int, span: LonSpan) -> Seq<(i16, i16)>
    decreases hi - lo,
{
    if hi <= lo {
        seq![]
    } else {
        rows_cells(lo, hi - 1, span) + row_cells((hi - 1) as i16, span)
    }
}

/// The cells a radius query visits: the rows from `lat_lo` to `lat_hi`,
/// both clamped into `-90..=89`, each with the longitudes of `span`.
pub open spec fn radius_cells_spec(lat_lo: int, lat_hi: int, span: LonSpan) -> Seq<(i16, i16)> {
    rows_cells(clamp(lat_lo, -90, 89), clamp(lat_hi, -90, 89) + 1, span)
}

/// The cells that a radius query visits, row by row.
pub fn radius_query_cells(lat_lo: i64, lat_hi: i64, span: LonSpan) -> (r: Vec<(i16, i16)>)
    requires
        span matches LonSpan::Range { min, max } ==> -0x1000_0000 <= min && max <= 0x1000_0000,
    ensures
        r@ == radius_cells_spec(lat_lo as int, lat_hi as int, span),
{
    let lo: i16 = if lat_lo < -90 {
        -90
    } else if lat_lo > 89 {
        89
    } else {
        lat_lo as i16
    };
    let hi: i16 = if lat_hi < -90 {
        -90
    } else if lat_hi > 89 {
        89
    } else {
        lat_hi as i16
    };
    let mut r: Vec<(i16, i16)> = Vec::new();
    let mut lat: i16 = lo;
    assert(r@ == rows_cells(lo as int, lo as int, span));
    while lat <= hi
        invariant
            -90 <= lo <= lat,
            lat <= hi + 1 || lat == lo,
            -90 <= hi <= 89,
            lo <= 89,
            span matches LonSpan::Range { min, max } ==> -0x1000_0000 <= min && max <= 0x1000_0000,
            r@ == rows_cells(lo as int, lat as int, span),
        decreases hi + 1 - lat,
    {
        let ghost before = r@;
        match span {
            LonSpan::Full => {
                let mut lon: i16 = -180;
                while lon <= 179
                    invariant
                        -180 <= lon <= 180,
                        r@ == before + Seq::new((lon + 180) as nat, |k: int| (lat, (k - 180) as i16)),
                    decreases 180 - lon,
                {
                    r.push((lat, lon));
                    assert(Seq::new((lon + 1 + 180) as nat, |k: int| (lat, (k - 180) as i16)) == Seq::new(
                        (lon + 180) as nat,
                        |k: int| (lat, (k - 180) as i16),
                    ).push((lat, lon)));
                    lon += 1;
                }
            },
            LonSpan::Range { min, max } => {
                let mut lon: i64 = min;
                while lon <= max
                    invariant
                        -0x1000_0000 <= min && max <= 0x1000_0000,
                        min <= lon <= max + 1 || (max < min && lon == min),
                        r@ == before + Seq::new((lon - min) as nat, |k: int| (lat, wrap_longitude(min + k) as i16)),
                    decreases max + 1 - lon,
                {
                    let w = wrapped_longitude(lon);
                    r.push((lat, w));
                    assert(Seq::new((lon + 1 - min) as nat, |k: int| (lat, wrap_longitude(min + k) as i16)) == Seq::new(
                        (lon - min) as nat,
                        |k: int| (lat, wrap_longitude(min + k) as i16),
                    ).push((lat, w)));
                    lon += 1;
                }
                if max < min {
                    assert(r@ == before);
                }
            },
        }
        assert(r@ == rows_cells(lo as int, lat + 1, span));
        lat += 1;
    }
    proof {
        if lo > hi {
            assert(rows_cells(lo as int, hi + 1, span) == Seq::<(i16, i16)>::empty());
        }
    }
    r
}

// -------------------------------------------------------------- queries

/// Row-major order of grid cells.
pub open spec fn cell_lt(a: (i16, i16), b: (i16, i16)) -> bool {
    a.0 < b.0 || (a.0 == b.0 && a.1 < b.1)
}

/// Some cell of `a` is a cell of `b`.
pub open spec fn cells_meet(a: Seq<(i16, i16)>, b: Seq<(i16, i16)>) -> bool {
    exists|i: int, j: int| 0 <= i < a.len() && 0 <= j < b.len() && #[trigger] a[i] == #[trigger] b[j]
}

/// Some region of `a` is a non-empty region of `q`.
pub open spec fn regions_meet(a: Seq<Seq<char>>, q: Seq<Seq<char>>) -> bool {
    exists|i: int, j: int| 0 <= i < a.len() && 0 <= j < q.len() && q[j].len() > 0 && #[trigger] a[i] == #[trigger] q[j]
}

/// Whether an alert that covers `cells` and names `regions` concerns the
/// stored subscription `e`.
pub open spec fn entry_matches<S>(e: EntryView<S>, cells: Seq<(i16, i16)>, regions: Seq<Seq<char>>) -> bool {
    cells_meet(e.cells, cells) || regions_meet(e.regions, regions)
}

impl<S> CacheState<S> {
    /// The positions, in the snapshot, of the stored subscriptions that an
    /// alert covering `cells` and naming `regions` concerns, each once;
    /// empty region names match nothing. The index is rebuilt first when a
    /// write has made it stale.
    pub fn candidates(&mut self, cells: &Vec<(i16, i16)>, regions: &Vec<String>) -> (r: Vec<usize>)
        requires
            old(self).wf(),
        ensures
            final(self).wf(),
            final(self).snapshot_spec() == old(self).snapshot_spec(),
            final(self).next_version_spec() == old(self).next_version_spec(),
            forall|i: int, j: int| 0 <= i < j < r.len() ==> r@[i] != r@[j],
            forall|i: int| 0 <= i < r.len() ==> r@[i] < final(self).snapshot_spec().len(),
            forall|p: int|
                0 <= p < final(self).snapshot_spec().len() ==> (r@.contains(p as usize) <==> entry_matches(
                    #[trigger] final(self).snapshot_spec()[p],
                    cells@,
                    strings_view(regions@),
                )),
    {
        if !self.index_fresh {
            self.index = SubscriptionIndex::build(&self.entries);
            self.index_fresh = true;
        }
        self.index.query(&self.entries, cells, regions)
    }
}

// ------------------------------------------------------ lookups by id

/// The position in `s` of the entry with Bark ID `k`, if there is one.
pub open spec fn position_in<S>(s: Seq<EntryView<S>>, k: Seq<char>) -> Option<int> {
    if exists|i: int| 0 <= i < s.len() && (#[trigger] s[i]).bark_id == k {
        Some(choose|i: int| 0 <= i < s.len() && (#[trigger] s[i]).bark_id == k)
    } else {
        None
    }
}

/// The positions of the entries of `s` with the Bark IDs of `ids`, in the
/// order of `ids`; IDs that nothing is stored under are skipped.
pub open spec fn positions_for<S>(s: Seq<EntryView<S>>, ids: Seq<Seq<char>>) -> Seq<usize>
    decreases ids.len(),
{
    if ids.len() == 0 {
        seq![]
    } else {
        positions_for(s, ids.drop_last()) + match position_in(s, ids.last()) {
            Some(i) => seq![i as usize],
            None => seq![],
        }
    }
}

impl<S> CacheState<S> {
    /// The position in the snapshot of the subscription stored under
    /// `bark_id`.
    pub fn position(&self, bark_id: &str) -> (r: Option<usize>)
        requires
            self.wf(),
        ensures
            match r {
                Some(p) => position_in(self.snapshot_spec(), bark_id@) == Some(p as int),
                None => position_in(self.snapshot_spec(), bark_id@) is None,
            },
    {
        let key = chars_of(bark_id);
        let (p, found) = self.search(&key);
        proof {
            self.lemma_search_result(key@, p as int, found);
            self.lemma_wf_facts();
            let s = self.snapshot_spec();
            if found {
                assert(s[p as int].bark_id == key@);
                let j = choose|j: int| 0 <= j < s.len() && (#[trigger] s[j]).bark_id == key@;
                assert(j == p);
            } else {
                assert forall|i: int| 0 <= i < s.len() implies (#[trigger] s[i]).bark_id != key@ by {
                    assert(s[i].bark_id == self.keys@[i]@);
                }
            }
        }
        if found {
            Some(p)
        } else {
            None
        }
    }

    /// The positions in the snapshot of the subscriptions stored under the
    /// Bark IDs of `ids`, in the order of `ids`, skipping IDs not stored.
    pub fn positions_of(&self, ids: &Vec<String>) -> (r: Vec<usize>)
        requires
            self.wf(),
        ensures
            r@ == positions_for(self.snapshot_spec(), strings_view(ids@)),
    {
        let ghost iv = strings_view(ids@);
        let mut r: Vec<usize> = Vec::new();
        let mut i: usize = 0;
        while i < ids.len()
            invariant
                self.wf(),
                iv == strings_view(ids@),
                i <= ids.len(),
                r@ == positions_for(self.snapshot_spec(), iv.take(i as int)),
            decreases ids.len() - i,
        {
            proof {
                assert(iv.take(i + 1).drop_last() == iv.take(i as int));
                assert(iv.take(i + 1).last() == ids@[i as int]@);
            }
            match self.position(ids[i].as_str()) {
                Some(p) => {
                    r.push(p);
                },
                None => {},
            }
            proof {
                assert(r@ == positions_for(self.snapshot_spec(), iv.take(i + 1)));
            }
            i += 1;
        }
        assert(iv.take(ids.len() as int) == iv);
        r
    }
}

/// The subscriptions held in memory, keyed by Bark ID.
pub struct SubscriptionCache<S> {
    state: CacheState<S>,
}

impl<S> SubscriptionCache<S> {
    /// The stored subscriptions, in Bark ID order.
    pub closed spec fn snapshot_spec(&self) -> Seq<EntryView<S>> {
        self.state.snapshot_spec()
    }

    /// The version the next write will get.
    pub closed spec fn next_version_spec(&self) -> u64 {
        self.state.next_version_spec()
    }

    /// The stored subscription with Bark ID `k`.
    pub open spec fn lookup(&self, k: Seq<char>) -> Option<EntryView<S>> {
        lookup_in(self.snapshot_spec(), k)
    }

    /// The internal consistency of the cache, which every cache keeps.
    #[verifier::type_invariant]
    pub closed spec fn wf(&self) -> bool {
        self.state.wf()
    }

    /// A well-formed cache holds each Bark ID at most once, and every stored
    /// version is below the next one to be handed out.
    pub proof fn lemma_wf_facts(&self)
        requires
            self.wf(),
        ensures
            ids_unique(self.snapshot_spec()),
            forall|i: int| 0 <= i < self.snapshot_spec().len() ==> (#[trigger] self.snapshot_spec()[i]).version < self.next_version_spec(),
    {
        self.state.lemma_wf_facts();
    }

    /// `bark_id` is stored now under `version`.
    pub open spec fn current(&self, bark_id: Seq<char>, version: u64) -> bool {
        self.lookup(bark_id) matches Some(e) && e.version == version
    }

    /// A write of a Bark ID, as [`SubscriptionCache::upsert`] states it,
    /// makes every snapshot of that Bark ID taken before it stale and the
    /// version it hands out current; other Bark IDs keep their snapshots.
    pub proof fn lemma_write_makes_snapshots_stale(
        pre: Self,
        post: Self,
        bark_id: Seq<char>,
        record: S,
        cells: Seq<(i16, i16)>,
        regions: Seq<Seq<char>>,
        other: Seq<char>,
        version: u64,
    )
        requires
            pre.wf(),
            pre.next_version_spec() < u64::MAX,
            post.lookup(bark_id) == Some(EntryView { bark_id, version: pre.next_version_spec(), record, cells, regions }),
            forall|k: Seq<char>| k != bark_id ==> #[trigger] post.lookup(k) == pre.lookup(k),
        ensures
            pre.current(bark_id, version) ==> !post.current(bark_id, version),
            post.current(bark_id, pre.next_version_spec()),
            other != bark_id ==> (post.current(other, version) == pre.current(other, version)),
    {
        pre.lemma_wf_facts();
        let s = pre.snapshot_spec();
        if pre.current(bark_id, version) {
            let i = choose|i: int| 0 <= i < s.len() && (#[trigger] s[i]).bark_id == bark_id;
            assert(s[i].version < pre.next_version_spec());
        }
        if other != bark_id {
            assert(post.lookup(other) == pre.lookup(other));
        }
    }

    pub fn new() -> (c: Self)
        ensures
            c.snapshot_spec().len() == 0,
            c.next_version_spec() == 1,
    {
        SubscriptionCache { state: CacheState::new() }
    }

    /// Number of stored subscriptions.
    pub fn len(&self) -> (n: usize)
        ensures
            n == self.snapshot_spec().len(),
    {
        proof {
            use_type_invariant(self);
        }
        self.state.len()
    }

    /// The stored subscriptions, in Bark ID order.
    pub fn snapshot(&self) -> (v: &Vec<StoredSubscription<S>>)
        ensures
            entries_view(v@) == self.snapshot_spec(),
    {
        self.state.snapshot()
    }

    /// The stored subscription with Bark ID `bark_id`.
    pub fn get(&self, bark_id: &str) -> (r: Option<&StoredSubscription<S>>)
        ensures
            match r {
                Some(e) => self.lookup(bark_id@) == Some(e@),
                None => self.lookup(bark_id@) is None,
            },
    {
        proof {
            use_type_invariant(self);
        }
        self.state.get(bark_id)
    }

    /// Stores `record` under `bark_id` with a version no earlier write got,
    /// replacing what was stored under that Bark ID; other Bark IDs keep
    /// what they had. Refused only when every version has been handed out.
    pub fn upsert(&mut self, bark_id: String, record: S, cells: Vec<(i16, i16)>, regions: Vec<String>) -> (r: Result<u64, CacheError>)
        ensures
            old(self).next_version_spec() == u64::MAX ==> {
                &&& r == Err::<u64, CacheError>(CacheError::VersionsExhausted)
                &&& final(self).snapshot_spec() == old(self).snapshot_spec()
                &&& final(self).next_version_spec() == old(self).next_version_spec()
            },
            old(self).next_version_spec() < u64::MAX ==> {
                &&& r == Ok::<u64, CacheError>(old(self).next_version_spec())
                &&& final(self).next_version_spec() == old(self).next_version_spec() + 1
                &&& final(self).lookup(bark_id@) == Some(EntryView {
                    bark_id: bark_id@,
                    version: old(self).next_version_spec(),
                    record,
                    cells: cells@,
                    regions: strings_view(regions@),
                })
                &&& old(self).lookup(bark_id@) matches Some(e) ==> e.version < old(self).next_version_spec()
                &&& forall|k: Seq<char>| k != bark_id@ ==> #[trigger] final(self).lookup(k) == old(self).lookup(k)
                &&& final(self).snapshot_spec().len() == old(self).snapshot_spec().len() + if old(self).lookup(bark_id@) is None { 1int } else { 0int }
            },
    {
        proof {
            use_type_invariant(&*self);
        }
        let mut st = CacheState::new();
        std::mem::swap(&mut st, &mut self.state);
        let ghost id = bark_id@;
        let r = st.upsert(bark_id, record, cells, regions);
        self.state = st;
        proof {
            assert forall|k: Seq<char>| k != id implies #[trigger] self.lookup(k) == old(self).lookup(k) by {
                assert(self.state.lookup(k) == old(self).state.lookup(k));
            }
        }
        r
    }

    /// Removes the subscription stored under `bark_id`; says whether there
    /// was one. Other Bark IDs keep what they had.
    pub fn remove(&mut self, bark_id: &str) -> (r: bool)
        ensures
            r == old(self).lookup(bark_id@) is Some,
            final(self).lookup(bark_id@) is None,
            forall|k: Seq<char>| k != bark_id@ ==> #[trigger] final(self).lookup(k) == old(self).lookup(k),
            final(self).snapshot_spec().len() == old(self).snapshot_spec().len() - if r { 1int } else { 0int },
            final(self).next_version_spec() == old(self).next_version_spec(),
    {
        proof {
            use_type_invariant(&*self);
        }
        let mut st = CacheState::new();
        std::mem::swap(&mut st, &mut self.state);
        let r = st.remove(bark_id);
        self.state = st;
        proof {
            assert forall|k: Seq<char>| k != bark_id@ implies #[trigger] self.lookup(k) == old(self).lookup(k) by {
                assert(self.state.lookup(k) == old(self).state.lookup(k));
            }
        }
        r
    }

    /// Whether `version` is the version under which `bark_id` is stored now:
    /// a snapshot taken earlier is current only if no write or delete of
    /// that Bark ID happened since.
    pub fn is_current(&self, bark_id: &str, version: u64) -> (b: bool)
        ensures
            b == self.current(bark_id@, version),
    {
        proof {
            use_type_invariant(self);
        }
        self.state.is_current(bark_id, version)
    }

    /// The positions, in the snapshot, of the stored subscriptions that an
    /// alert covering `cells` and naming `regions` concerns, each once;
    /// empty region names match nothing. The index is rebuilt first when a
    /// write has made it stale.
    pub fn candidates(&mut self, cells: &Vec<(i16, i16)>, regions: &Vec<String>) -> (r: Vec<usize>)
        ensures
            final(self).snapshot_spec() == old(self).snapshot_spec(),
            final(self).next_version_spec() == old(self).next_version_spec(),
            forall|i: int, j: int| 0 <= i < j < r.len() ==> r@[i] != r@[j],
            forall|i: int| 0 <= i < r.len() ==> r@[i] < final(self).snapshot_spec().len(),
            forall|p: int|
                0 <= p < final(self).snapshot_spec().len() ==> (r@.contains(p as usize) <==> entry_matches(
                    #[trigger] final(self).snapshot_spec()[p],
                    cells@,
                    strings_view(regions@),
                )),
    {
        proof {
            use_type_invariant(&*self);
        }
        let mut st = CacheState::new();
        std::mem::swap(&mut st, &mut self.state);
        let r = st.candidates(cells, regions);
        self.state = st;
        r
    }

    /// The position in the snapshot of the subscription stored under
    /// `bark_id`.
    pub fn position(&self, bark_id: &str) -> (r: Option<usize>)
        ensures
            match r {
                Some(p) => position_in(self.snapshot_spec(), bark_id@) == Some(p as int),
                None => position_in(self.snapshot_spec(), bark_id@) is None,
            },
    {
        proof {
            use_type_invariant(self);
        }
        self.state.position(bark_id)
    }

    /// The positions in the snapshot of the subscriptions stored under the
    /// Bark IDs of `ids`, in the order of `ids`, skipping IDs not stored.
    pub fn positions_of(&self, ids: &Vec<String>) -> (r: Vec<usize>)
        ensures
            r@ == positions_for(self.snapshot_spec(), strings_view(ids@)),
    {
        proof {
            use_type_invariant(self);
        }
        self.state.positions_of(ids)
    }
}

// ------------------------------------------------- persisted record keys

/// How a failed store operation is reported to the client.
#[derive(Debug, Clone, Copy, PartialEq, Eq, Structural)]
pub enum StoreErrorKind {
    NotFound,
    Internal,
}

/// The message of the error that a delete of an unknown subscription gives.
pub open spec fn not_found_message() -> Seq<char> {
    "订阅不存在"@
}

/// `pat` occurs in `s`.
pub open spec fn contains_seq(s: Seq<char>, pat: Seq<char>) -> bool {
    exists|i: int| 0 <= i && i + pat.len() <= s.len() && #[trigger] s.subrange(i, i + pat.len()) == pat
}

/// Whether `pat` occurs in `s` (`str::contains`).
fn contains_str(s: &str, pat: &str) -> (b: bool)
    ensures
        b == contains_seq(s@, pat@),
{
    let sv = chars_of(s);
    let pv = chars_of(pat);
    if pv.len() > sv.len() {
        proof {
            assert forall|i: int| 0 <= i && i + pv@.len() <= sv@.len() implies #[trigger] sv@.subrange(i, i + pv@.len()) != pv@ by {}
        }
        return false;
    }
    let mut i: usize = 0;
    while i <= sv.len() - pv.len()
        invariant
            sv@ == s@,
            pv@ == pat@,
            pv.len() <= sv.len(),
            i <= sv.len() - pv.len() + 1,
            forall|k: int| 0 <= k < i ==> #[trigger] sv@.subrange(k, k + pv@.len()) != pv@,
        decreases sv.len() - i,
    {
        let mut j: usize = 0;
        while j < pv.len() && sv[i + j] == pv[j]
            invariant
                i + pv.len() <= sv.len(),
                j <= pv.len(),
                forall|m: int| 0 <= m < j ==> sv@[i + m] == pv@[m],
            decreases pv.len() - j,
        {
            j += 1;
        }
        if j == pv.len() {
            assert(sv@.subrange(i as int, i + pv@.len()) == pv@);
            return true;
        }
        assert(sv@.subrange(i as int, i + pv@.len())[j as int] != pv@[j as int]);
        i += 1;
    }
    false
}

/// The kind of a store error from its message: a delete of an unknown
/// subscription is `NotFound`, anything else `Internal`.
pub fn classify_error(message: &str) -> (k: StoreErrorKind)
    ensures
        k == if contains_seq(message@, not_found_message()) {
            StoreErrorKind::NotFound
        } else {
            StoreErrorKind::Internal
        },
{
    if contains_str(message, "订阅不存在") {
        StoreErrorKind::NotFound
    } else {
        StoreErrorKind::Internal
    }
}

/// The bytes `sub:` that prefix the key of a persisted subscription.
pub open spec fn record_prefix() -> Seq<u8> {
    seq![0x73u8, 0x75u8, 0x62u8, 0x3au8]
}

/// The key under which the subscription of `bark_id` is persisted.
pub open spec fn record_key(bark_id: Seq<char>) -> Seq<u8> {
    record_prefix() + vstd::utf8::encode_utf8(bark_id)
}

fn has_record_prefix(key: &[u8]) -> (b: bool)
    ensures
        b == (key@.len() >= 4 && key@.take(4) == record_prefix()),
{
    let b = key.len() >= 4 && key[0] == 0x73u8 && key[1] == 0x75u8 && key[2] == 0x62u8 && key[3] == 0x3au8;
    proof {
        if key@.len() >= 4 {
            if b {
                assert(key@.take(4) == record_prefix());
            } else {
                if key@.take(4) == record_prefix() {
                    assert(key@[0] == key@.take(4)[0]);
                    assert(key@[1] == key@.take(4)[1]);
                    assert(key@[2] == key@.take(4)[2]);
                    assert(key@[3] == key@.take(4)[3]);
                }
            }
        }
    }
    b
}

/// The key of a persisted subscription for `bark_id`.
pub fn subscription_key(bark_id: &str) -> (k: Vec<u8>)
    ensures
        k@ == record_key(bark_id@),
{
    let mut k: Vec<u8> = vec![0x73u8, 0x75u8, 0x62u8, 0x3au8];
    let bytes = bark_id.as_bytes();
    let mut i: usize = 0;
    while i < bytes.len()
        invariant
            i <= bytes.len(),
            bytes@ == vstd::utf8::encode_utf8(bark_id@),
            k@ == record_prefix() + bytes@.take(i as int),
        decreases bytes.len() - i,
    {
        k.push(bytes[i]);
        assert(bytes@.take(i + 1) == bytes@.take(i as int).push(bytes@[i as int]));
        i += 1;
    }
    assert(bytes@.take(bytes.len() as int) == bytes@);
    k
}

/// Whether `key` is the persisted key of the subscription of `bark_id`.
pub fn subscription_key_matches(key: &[u8], bark_id: &str) -> (b: bool)
    ensures
        b == (key@ == record_key(bark_id@)),
{
    let expected = subscription_key(bark_id);
    if key.len() != expected.len() {
        return false;
    }
    let mut i: usize = 0;
    while i < key.len()
        invariant
            key.len() == expected.len(),
            expected@ == record_key(bark_id@),
            i <= key.len(),
            forall|m: int| 0 <= m < i ==> key@[m] == expected@[m],
        decreases key.len() - i,
    {
        if key[i] != expected[i] {
            return false;
        }
        i += 1;
    }
    assert(key@ == expected@);
    true
}

/// `std::str::from_utf8`: the text that `bytes` encode, `None` when they are
/// not valid UTF-8. The contract claims that the bytes std accepts are those
/// that `vstd::utf8::valid_utf8` describes, decoded as `decode_utf8` does.
#[verifier::external_body]
fn utf8_text(bytes: &[u8]) -> (r: Option<&str>)
    ensures
        r is Some <==> vstd::utf8::valid_utf8(bytes@),
        r matches Some(t) ==> t@ == vstd::utf8::decode_utf8(bytes@),
{
    std::str::from_utf8(bytes).ok()
}

/// The masked Bark ID behind a persisted key, for error messages: keys that
/// are not `sub:` followed by UTF-8 text give `***`.
pub fn mask_subscription_key(key: &[u8]) -> (m: String)
    ensures
        key@.len() >= 4 && key@.take(4) == record_prefix() && vstd::utf8::valid_utf8(key@.skip(4))
            ==> m@ == crate::models::subscription::masked_id(vstd::utf8::decode_utf8(key@.skip(4))),
        !(key@.len() >= 4 && key@.take(4) == record_prefix() && vstd::utf8::valid_utf8(key@.skip(4)))
            ==> m@ == "***"@,
{
    if has_record_prefix(key) {
        let rest = &key[4..key.len()];
        assert(rest@ == key@.skip(4));
        if let Some(bark_id) = utf8_text(rest) {
            return mask_bark_id(bark_id);
        }
    }
    String::from_str("***")
}

/// The administrative fields of `locs`, province, city and district of
/// each location in turn: the values a subscription is indexed under by
/// region. Location names are display labels and are not among them.
pub open spec fn administrative_fields_spec(locs: Seq<LocationTextView>) -> Seq<Seq<char>>
    decreases locs.len(),
{
    if locs.len() == 0 {
        seq![]
    } else {
        administrative_fields_spec(locs.drop_last()) + seq![locs.last().province, locs.last().city, locs.last().district]
    }
}

/// The region values of a subscription are, location by location, its
/// province, city and district, three per location and nothing else; a
/// location's name is not among them.
pub proof fn lemma_administrative_fields_layout(locs: Seq<LocationTextView>)
    ensures
        administrative_fields_spec(locs).len() == 3 * locs.len(),
        forall|i: int| 0 <= i < locs.len() ==> {
            &&& administrative_fields_spec(locs)[3 * i] == (#[trigger] locs[i]).province
            &&& administrative_fields_spec(locs)[3 * i + 1] == locs[i].city
            &&& administrative_fields_spec(locs)[3 * i + 2] == locs[i].district
        },
    decreases locs.len(),
{
    if locs.len() > 0 {
        let d = locs.drop_last();
        lemma_administrative_fields_layout(d);
        let r = administrative_fields_spec(locs);
        let rd = administrative_fields_spec(d);
        assert forall|i: int| 0 <= i < locs.len() implies {
            &&& r[3 * i] == (#[trigger] locs[i]).province
            &&& r[3 * i + 1] == locs[i].city
            &&& r[3 * i + 2] == locs[i].district
        } by {
            if i < d.len() {
                assert(locs[i] == d[i]);
                assert(r[3 * i] == rd[3 * i]);
                assert(r[3 * i + 1] == rd[3 * i + 1]);
                assert(r[3 * i + 2] == rd[3 * i + 2]);
            } else {
                assert(locs[i] == locs.last());
                assert(3 * i == rd.len());
            }
        }
    }
}

/// The administrative fields of `locations`, to be normalised into region
/// keys.
pub fn administrative_fields(locations: &Vec<LocationText>) -> (r: Vec<String>)
    ensures
        strings_view(r@) == administrative_fields_spec(locations_view(locations@)),
{
    let ghost lv = locations_view(locations@);
    let mut r: Vec<String> = Vec::new();
    let mut i: usize = 0;
    while i < locations.len()
        invariant
            lv == locations_view(locations@),
            i <= locations.len(),
            strings_view(r@) == administrative_fields_spec(lv.take(i as int)),
        decreases locations.len() - i,
    {
        let l = &locations[i];
        let ghost before = strings_view(r@);
        r.push(l.province.clone());
        r.push(l.city.clone());
        r.push(l.district.clone());
        proof {
            assert(lv.take(i + 1).drop_last() == lv.take(i as int));
            assert(lv.take(i + 1).last() == l@);
            assert(strings_view(r@) == before + seq![l.province@, l.city@, l.district@]);
        }
        i += 1;
    }
    assert(lv.take(locations.len() as int) == lv);
    r
}

} // verus!
