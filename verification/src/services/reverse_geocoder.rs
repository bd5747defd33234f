//! The parts of reverse geocoding that decide: how an address answer maps
//! to administrative regions, which answers are cached and for how long,
//! and how long to wait before the next upstream request.
use crate::text::{trim, trim_to_string, trimmed_chars};
use vstd::prelude::*;

verus! {

/// How long a cached answer stays usable, in milliseconds (a day).
pub const CACHE_TTL_MS: u64 = 86_400_000;

/// The least time between two upstream requests, in milliseconds.
pub const MIN_REQUEST_INTERVAL_MS: u64 = 1_000;

/// Most answers kept in the cache.
pub const MAX_CACHE_ENTRIES: usize = 1_024;

/// The administrative regions of a coordinate.
#[derive(Debug, Clone)]
pub struct ReverseGeocodeResult {
    pub province: String,
    pub city: String,
    pub district: String,
}

/// The mathematical content of a [`ReverseGeocodeResult`].
pub struct ResultView {
    pub province: Seq<char>,
    pub city: Seq<char>,
    pub district: Seq<char>,
}

impl View for ReverseGeocodeResult {
    type V = ResultView;

    open spec fn view(&self) -> ResultView {
        ResultView { province: self.province@, city: self.city@, district: self.district@ }
    }
}

fn copy_result(r: &ReverseGeocodeResult) -> (c: ReverseGeocodeResult)
    ensures
        c@ == r@,
{
    ReverseGeocodeResult { province: r.province.clone(), city: r.city.clone(), district: r.district.clone() }
}

/// The address part of a Nominatim answer.
#[derive(Debug, Clone, Default)]
pub struct NominatimAddress {
    pub state: Option<String>,
    pub province: Option<String>,
    pub region: Option<String>,
    pub city: Option<String>,
    pub town: Option<String>,
    pub municipality: Option<String>,
    pub county: Option<String>,
    pub city_district: Option<String>,
    pub district: Option<String>,
    pub borough: Option<String>,
    pub suburb: Option<String>,
}

/// The view of an optional string.
pub open spec fn opt_view(o: Option<String>) -> Option<Seq<char>> {
    match o {
        Some(s) => Some(s@),
        None => None,
    }
}

/// The first value of `s` that is present and not blank, trimmed; empty
/// when there is none.
pub open spec fn first_non_empty_spec(s: Seq<Option<Seq<char>>>) -> Seq<char>
    decreases s.len(),
{
    if s.len() == 0 {
        seq![]
    } else {
        match s[0] {
            Some(v) => if trim(v).len() > 0 {
                trim(v)
            } else {
                first_non_empty_spec(s.drop_first())
            },
            None => first_non_empty_spec(s.drop_first()),
        }
    }
}

/// The first value of `values` that is present and not blank, trimmed.
pub fn first_non_empty(values: &Vec<Option<String>>) -> (r: String)
    ensures
        r@ == first_non_empty_spec(values@.map_values(|o: Option<String>| opt_view(o))),
{
    let ghost vs = values@.map_values(|o: Option<String>| opt_view(o));
    let mut i: usize = 0;
    assert(vs.skip(0) == vs);
    while i < values.len()
        invariant
            vs == values@.map_values(|o: Option<String>| opt_view(o)),
            i <= values.len(),
            first_non_empty_spec(vs) == first_non_empty_spec(vs.skip(i as int)),
        decreases values.len() - i,
    {
        let ghost rest = vs.skip(i as int);
        assert(rest[0] == opt_view(values@[i as int]));
        assert(rest.drop_first() == vs.skip(i + 1));
        match &values[i] {
            Some(v) => {
                let t = trimmed_chars(v.as_str());
                if t.len() > 0 {
                    return crate::text::string_from_chars(&t);
                }
            },
            None => {},
        }
        i += 1;
    }
    assert(vs.skip(values.len() as int).len() == 0);
    String::new()
}

impl NominatimAddress {
    /// The regions that this address names: the province from `state`,
    /// `province`, `region`; the city from `city`, `town`, `municipality`,
    /// `county`; the district from `city_district`, `district`, `borough`,
    /// `suburb`; each the first of its fields that is not blank.
    pub fn into_result(self) -> (r: ReverseGeocodeResult)
        ensures
            r.province@ == first_non_empty_spec(
                seq![opt_view(self.state), opt_view(self.province), opt_view(self.region)],
            ),
            r.city@ == first_non_empty_spec(
                seq![opt_view(self.city), opt_view(self.town), opt_view(self.municipality), opt_view(self.county)],
            ),
            r.district@ == first_non_empty_spec(
                seq![
                    opt_view(self.city_district),
                    opt_view(self.district),
                    opt_view(self.borough),
                    opt_view(self.suburb),
                ],
            ),
    {
        let ghost this = self;
        let provinces = vec![self.state, self.province, self.region];
        let cities = vec![self.city, self.town, self.municipality, self.county];
        let districts = vec![self.city_district, self.district, self.borough, self.suburb];
        let province = first_non_empty(&provinces);
        let city = first_non_empty(&cities);
        let district = first_non_empty(&districts);
        assert(provinces@.map_values(|o: Option<String>| opt_view(o)) == seq![
            opt_view(this.state),
            opt_view(this.province),
            opt_view(this.region),
        ]);
        assert(cities@.map_values(|o: Option<String>| opt_view(o)) == seq![
            opt_view(this.city),
            opt_view(this.town),
            opt_view(this.municipality),
            opt_view(this.county),
        ]);
        assert(districts@.map_values(|o: Option<String>| opt_view(o)) == seq![
            opt_view(this.city_district),
            opt_view(this.district),
            opt_view(this.borough),
            opt_view(this.suburb),
        ]);
        ReverseGeocodeResult { province, city, district }
    }
}

/// A coordinate rounded to four decimal places, as ten-thousandths of a
/// degree: the cache key of an answer.
#[derive(Debug, Clone, Copy, PartialEq, Eq, Structural, Hash)]
pub struct CoordinateKey {
    pub latitude: i32,
    pub longitude: i32,
}

/// One cached answer and the time it was stored, in milliseconds on the
/// caller's monotonic clock.
struct CacheEntry {
    key: CoordinateKey,
    value: ReverseGeocodeResult,
    stored_at_ms: u64,
}

/// The mathematical content of a cached answer.
pub struct CachedView {
    pub key: CoordinateKey,
    pub value: ResultView,
    pub stored_at_ms: u64,
}

/// The view of a cached answer.
spec fn cached_view(e: CacheEntry) -> CachedView {
    CachedView { key: e.key, value: e.value@, stored_at_ms: e.stored_at_ms }
}

/// The views of a sequence of cached answers.
spec fn cached_views(s: Seq<CacheEntry>) -> Seq<CachedView> {
    s.map_values(|e: CacheEntry| cached_view(e))
}

/// `now - then`, or 0 when `then` is later (a monotonic clock's elapsed time).
pub open spec fn elapsed(now: u64, then: u64) -> u64 {
    if now >= then {
        (now - then) as u64
    } else {
        0
    }
}

/// `s` without the answers stored under `key`.
pub open spec fn without_key(s: Seq<CachedView>, key: CoordinateKey) -> Seq<CachedView>
    decreases s.len(),
{
    if s.len() == 0 {
        seq![]
    } else if s.last().key == key {
        without_key(s.drop_last(), key)
    } else {
        without_key(s.drop_last(), key).push(s.last())
    }
}

/// The cache state after storing `e` in `s`: any older answer for the same
/// key is dropped, `e` becomes the most recent, and the oldest answer goes
/// when the cache would hold more than [`MAX_CACHE_ENTRIES`].
pub open spec fn after_insert(s: Seq<CachedView>, e: CachedView) -> Seq<CachedView> {
    let t = without_key(s, e.key).push(e);
    if t.len() > MAX_CACHE_ENTRIES {
        t.drop_first()
    } else {
        t
    }
}

/// The usable answer for `key` at time `now` among the answers `s`: the
/// one stored for `key`, if it was stored no longer than [`CACHE_TTL_MS`]
/// ago.
pub open spec fn fresh_in(s: Seq<CachedView>, key: CoordinateKey, now: u64) -> Option<ResultView> {
    if exists|i: int| 0 <= i < s.len() && (#[trigger] s[i]).key == key && elapsed(now, s[i].stored_at_ms) <= CACHE_TTL_MS {
        Some(s[choose|i: int| 0 <= i < s.len() && (#[trigger] s[i]).key == key && elapsed(now, s[i].stored_at_ms) <= CACHE_TTL_MS].value)
    } else {
        None
    }
}

/// No key occurs twice in `s`.
pub open spec fn keys_unique(s: Seq<CachedView>) -> bool {
    forall|i: int, j: int| 0 <= i < s.len() && 0 <= j < s.len() && i != j ==> (#[trigger] s[i]).key != (#[trigger] s[j]).key
}

/// The answers kept for reverse geocoding and the time of the last upstream
/// request.
pub struct GeocoderCache {
    entries: Vec<CacheEntry>,
    last_request_ms: Option<u64>,
}

impl GeocoderCache {
    /// The cached answers, oldest first.
    pub closed spec fn entries_spec(&self) -> Seq<CachedView> {
        cached_views(self.entries@)
    }

    /// The time of the last upstream request, if any.
    pub closed spec fn last_request_spec(&self) -> Option<u64> {
        self.last_request_ms
    }

    /// The cache holds each key at most once and at most
    /// [`MAX_CACHE_ENTRIES`] answers; every cache keeps this.
    #[verifier::type_invariant]
    pub open spec fn wf(&self) -> bool {
        &&& keys_unique(self.entries_spec())
        &&& self.entries_spec().len() <= MAX_CACHE_ENTRIES
    }

    /// The usable answer for `key` at time `now`.
    pub open spec fn fresh_answer(&self, key: CoordinateKey, now: u64) -> Option<ResultView> {
        fresh_in(self.entries_spec(), key, now)
    }

    pub fn new() -> (c: Self)
        ensures
            c.entries_spec().len() == 0,
            c.last_request_spec() is None,
    {
        GeocoderCache { entries: Vec::new(), last_request_ms: None }
    }

    /// The answer for `key` if it is cached and still fresh at `now_ms`.
    pub fn lookup(&self, key: CoordinateKey, now_ms: u64) -> (r: Option<ReverseGeocodeResult>)
        ensures
            match r {
                Some(v) => self.fresh_answer(key, now_ms) == Some(v@),
                None => self.fresh_answer(key, now_ms) is None,
            },
    {
        proof {
            use_type_invariant(self);
        }
        let ghost s = self.entries_spec();
        let mut i: usize = 0;
        while i < self.entries.len()
            invariant
                s == self.entries_spec(),
                self.wf(),
                i <= self.entries.len(),
                forall|j: int| 0 <= j < i ==> (#[trigger] s[j]).key != key,
            decreases self.entries.len() - i,
        {
            let e = &self.entries[i];
            if e.key == key {
                let age = if now_ms >= e.stored_at_ms {
                    now_ms - e.stored_at_ms
                } else {
                    0
                };
                proof {
                    assert(s[i as int].key == key);
                    assert forall|j: int| 0 <= j < s.len() && (#[trigger] s[j]).key == key implies j == i by {}
                }
                if age <= CACHE_TTL_MS {
                    return Some(copy_result(&e.value));
                } else {
                    return None;
                }
            }
            i += 1;
        }
        None
    }

    /// How long to wait at `now_ms` before the next upstream request: what
    /// is left of [`MIN_REQUEST_INTERVAL_MS`] since the last one.
    pub fn request_delay_ms(&self, now_ms: u64) -> (d: u64)
        ensures
            d == match self.last_request_spec() {
                Some(t) => if elapsed(now_ms, t) < MIN_REQUEST_INTERVAL_MS {
                    (MIN_REQUEST_INTERVAL_MS - elapsed(now_ms, t)) as u64
                } else {
                    0
                },
                None => 0,
            },
    {
        match self.last_request_ms {
            Some(t) => {
                let e = if now_ms >= t {
                    now_ms - t
                } else {
                    0
                };
                if e < MIN_REQUEST_INTERVAL_MS {
                    MIN_REQUEST_INTERVAL_MS - e
                } else {
                    0
                }
            },
            None => 0,
        }
    }

    /// Records an upstream request made at `now_ms`.
    pub fn mark_request(&mut self, now_ms: u64)
        ensures
            final(self).last_request_spec() == Some(now_ms),
            final(self).entries_spec() == old(self).entries_spec(),
    {
        proof {
            use_type_invariant(&*self);
        }
        self.last_request_ms = Some(now_ms);
    }

    /// Stores the answer `value` for `key` at `now_ms`, as [`after_insert`]
    /// describes.
    pub fn insert(&mut self, key: CoordinateKey, value: ReverseGeocodeResult, now_ms: u64)
        ensures
            final(self).entries_spec() == after_insert(
                old(self).entries_spec(),
                CachedView { key, value: value@, stored_at_ms: now_ms },
            ),
            final(self).last_request_spec() == old(self).last_request_spec(),
    {
        proof {
            use_type_invariant(&*self);
        }
        let ghost s0 = self.entries_spec();
        let ghost e = CachedView { key, value: value@, stored_at_ms: now_ms };
        let mut kept: Vec<CacheEntry> = Vec::new();
        let mut rest: Vec<CacheEntry> = Vec::new();
        std::mem::swap(&mut rest, &mut self.entries);
        let ghost oe = rest@;
        assert(s0 =~= cached_views(oe));
        let mut j: usize = 0;
        proof {
            assert(cached_views(kept@) =~= without_key(s0.take(0), key));
        }
        while rest.len() > 0
            invariant
                j + rest.len() == oe.len(),
                oe.len() <= usize::MAX,
                rest@ == oe.subrange(j as int, oe.len() as int),
                cached_views(kept@) == without_key(s0.take(j as int), key),
                s0 == cached_views(oe),
            decreases rest.len(),
        {
            let x = rest.remove(0);
            proof {
                assert(x == oe[j as int]);
                assert(s0.take(j + 1).drop_last() == s0.take(j as int));
                assert(s0[j as int] == cached_view(oe[j as int]));
                assert(s0.take(j + 1).last() == cached_view(x));
                assert(cached_view(x).key == x.key);
            }
            let ghost before = cached_views(kept@);
            if x.key != key {
                kept.push(x);
                assert(cached_views(kept@) =~= before.push(cached_view(oe[j as int])));
                assert(without_key(s0.take(j + 1), key) == without_key(s0.take(j as int), key).push(s0.take(j + 1).last()));
            } else {
                assert(without_key(s0.take(j + 1), key) == without_key(s0.take(j as int), key));
            }
            proof {
                assert(rest@ == oe.subrange(j + 1, oe.len() as int));
            }
            j += 1;
        }
        assert(s0.take(oe.len() as int) == s0);
        let ghost before_push = cached_views(kept@);
        kept.push(CacheEntry { key, value, stored_at_ms: now_ms });
        assert(cached_views(kept@) == before_push.push(e));
        proof {
            lemma_without_key_len(s0, key);
            lemma_without_key_unique(s0, key);
        }
        if kept.len() > MAX_CACHE_ENTRIES {
            let ghost t = cached_views(kept@);
            kept.remove(0);
            assert(cached_views(kept@) == t.drop_first());
        }
        proof {
            let t = without_key(s0, key).push(e);
            let f = cached_views(kept@);
            assert forall|a: int, b: int| 0 <= a < t.len() && 0 <= b < t.len() && a != b implies (#[trigger] t[a]).key != (#[trigger] t[b]).key by {
                if a == t.len() - 1 || b == t.len() - 1 {
                    lemma_without_key_absent(s0, key);
                }
            }
            if t.len() > MAX_CACHE_ENTRIES {
                assert forall|a: int, b: int| 0 <= a < f.len() && 0 <= b < f.len() && a != b implies (#[trigger] f[a]).key != (#[trigger] f[b]).key by {
                    assert(f[a] == t[a + 1]);
                    assert(f[b] == t[b + 1]);
                }
            }
        }
        self.entries = kept;
    }
}

proof fn lemma_without_key_len(s: Seq<CachedView>, key: CoordinateKey)
    ensures
        without_key(s, key).len() <= s.len(),
    decreases s.len(),
{
    if s.len() > 0 {
        lemma_without_key_len(s.drop_last(), key);
    }
}

proof fn lemma_without_key_absent(s: Seq<CachedView>, key: CoordinateKey)
    ensures
        forall|i: int| 0 <= i < without_key(s, key).len() ==> (#[trigger] without_key(s, key)[i]).key != key,
    decreases s.len(),
{
    if s.len() > 0 {
        lemma_without_key_absent(s.drop_last(), key);
        let w = without_key(s.drop_last(), key);
        assert forall|i: int| 0 <= i < without_key(s, key).len() implies (#[trigger] without_key(s, key)[i]).key != key by {
            if s.last().key != key && i == w.len() {
                assert(without_key(s, key)[i] == s.last());
            } else {
                assert(without_key(s, key)[i] == w[i]);
            }
        }
    }
}

proof fn lemma_without_key_members(s: Seq<CachedView>, key: CoordinateKey)
    ensures
        forall|i: int| 0 <= i < without_key(s, key).len() ==> exists|j: int| 0 <= j < s.len() && #[trigger] without_key(s, key)[i] == #[trigger] s[j],
    decreases s.len(),
{
    if s.len() > 0 {
        lemma_without_key_members(s.drop_last(), key);
        let w = without_key(s.drop_last(), key);
        assert forall|i: int| 0 <= i < without_key(s, key).len() implies exists|j: int| 0 <= j < s.len() && #[trigger] without_key(s, key)[i] == #[trigger] s[j] by {
            if i < w.len() {
                let j = choose|j: int| 0 <= j < s.drop_last().len() && #[trigger] w[i] == #[trigger] s.drop_last()[j];
                assert(s[j] == s.drop_last()[j]);
            } else {
                assert(without_key(s, key)[i] == s[s.len() - 1]);
            }
        }
    }
}

proof fn lemma_without_key_unique(s: Seq<CachedView>, key: CoordinateKey)
    requires
        keys_unique(s),
    ensures
        keys_unique(without_key(s, key)),
    decreases s.len(),
{
    if s.len() > 0 {
        let d = s.drop_last();
        assert(keys_unique(d));
        lemma_without_key_unique(d, key);
        lemma_without_key_members(d, key);
        let w = without_key(d, key);
        if s.last().key != key {
            let t = w.push(s.last());
            assert forall|a: int, b: int| 0 <= a < t.len() && 0 <= b < t.len() && a != b implies (#[trigger] t[a]).key != (#[trigger] t[b]).key by {
                if a == t.len() - 1 && b < w.len() {
                    let j = choose|j: int| 0 <= j < d.len() && #[trigger] w[b] == #[trigger] d[j];
                    assert(d[j] == s[j]);
                } else if b == t.len() - 1 && a < w.len() {
                    let j = choose|j: int| 0 <= j < d.len() && #[trigger] w[a] == #[trigger] d[j];
                    assert(d[j] == s[j]);
                }
            }
        }
    }
}

/// An answer just stored is, at the time it was stored, the usable answer
/// for its key; the cache still holds each key once and never more than
/// [`MAX_CACHE_ENTRIES`] answers.
pub proof fn lemma_stored_answer_is_fresh(s: Seq<CachedView>, e: CachedView)
    requires
        keys_unique(s),
        s.len() <= MAX_CACHE_ENTRIES,
    ensures
        fresh_in(after_insert(s, e), e.key, e.stored_at_ms) == Some(e.value),
        keys_unique(after_insert(s, e)),
        after_insert(s, e).len() <= MAX_CACHE_ENTRIES,
{
    lemma_without_key_len(s, e.key);
    lemma_without_key_unique(s, e.key);
    lemma_without_key_absent(s, e.key);
    let t = without_key(s, e.key).push(e);
    let a = after_insert(s, e);
    assert forall|x: int, y: int| 0 <= x < t.len() && 0 <= y < t.len() && x != y implies (#[trigger] t[x]).key != (#[trigger] t[y]).key by {}
    let last = a.len() - 1;
    assert(a[last] == e);
    assert(elapsed(e.stored_at_ms, e.stored_at_ms) == 0);
    assert(exists|i: int| 0 <= i < a.len() && (#[trigger] a[i]).key == e.key && elapsed(e.stored_at_ms, a[i].stored_at_ms) <= CACHE_TTL_MS) by {
        assert(a[last].key == e.key);
    }
    let i = choose|i: int| 0 <= i < a.len() && (#[trigger] a[i]).key == e.key && elapsed(e.stored_at_ms, a[i].stored_at_ms) <= CACHE_TTL_MS;
    if t.len() > MAX_CACHE_ENTRIES {
        assert forall|x: int, y: int| 0 <= x < a.len() && 0 <= y < a.len() && x != y implies (#[trigger] a[x]).key != (#[trigger] a[y]).key by {
            assert(a[x] == t[x + 1]);
            assert(a[y] == t[y + 1]);
        }
    }
    assert(i == last);
}


/// The cache after storing the answers of `es`, one after the other.
pub open spec fn after_inserts(s: Seq<CachedView>, es: Seq<CachedView>) -> Seq<CachedView>
    decreases es.len(),
{
    if es.len() == 0 {
        s
    } else {
        after_insert(after_inserts(s, es.drop_last()), es.last())
    }
}

proof fn lemma_without_key_concat(a: Seq<CachedView>, b: Seq<CachedView>, key: CoordinateKey)
    ensures
        without_key(a + b, key) == without_key(a, key) + without_key(b, key),
    decreases b.len(),
{
    if b.len() == 0 {
        assert(a + b == a);
        assert(without_key(a, key) + without_key(b, key) == without_key(a, key));
    } else {
        assert((a + b).drop_last() == a + b.drop_last());
        assert((a + b).last() == b.last());
        lemma_without_key_concat(a, b.drop_last(), key);
    }
}

/// After storing `e` and then the answers `es` of other keys, fewer of
/// them than the cache holds, `e` is still cached, with at most `es.len()`
/// answers stored after it.
proof fn lemma_answer_survives(s: Seq<CachedView>, e: CachedView, es: Seq<CachedView>)
    requires
        keys_unique(s),
        s.len() <= MAX_CACHE_ENTRIES,
        es.len() < MAX_CACHE_ENTRIES,
        forall|j: int| 0 <= j < es.len() ==> (#[trigger] es[j]).key != e.key,
    ensures
        keys_unique(after_inserts(after_insert(s, e), es)),
        after_inserts(after_insert(s, e), es).len() <= MAX_CACHE_ENTRIES,
        exists|i: int| {
            &&& 0 <= i < after_inserts(after_insert(s, e), es).len()
            &&& #[trigger] after_inserts(after_insert(s, e), es)[i] == e
            &&& after_inserts(after_insert(s, e), es).len() - 1 - i <= es.len()
        },
    decreases es.len(),
{
    lemma_stored_answer_is_fresh(s, e);
    let r = after_inserts(after_insert(s, e), es);
    if es.len() == 0 {
        let a = after_insert(s, e);
        assert(r == a);
        assert(a[a.len() - 1] == e);
    } else {
        let d = es.drop_last();
        let x = es.last();
        assert forall|j: int| 0 <= j < d.len() implies (#[trigger] d[j]).key != e.key by {
            assert(d[j] == es[j]);
        }
        lemma_answer_survives(s, e, d);
        let c = after_inserts(after_insert(s, e), d);
        let i = choose|i: int| 0 <= i < c.len() && #[trigger] c[i] == e && c.len() - 1 - i <= d.len();
        lemma_stored_answer_is_fresh(c, x);
        let p = c.take(i);
        let q = c.skip(i + 1);
        assert(c == p + seq![e] + q);
        assert(x.key != e.key);
        lemma_without_key_concat(p + seq![e], q, x.key);
        lemma_without_key_concat(p, seq![e], x.key);
        assert(seq![e].drop_last() == Seq::<CachedView>::empty());
        assert(seq![e].last() == e);
        assert(without_key(Seq::<CachedView>::empty(), x.key) == Seq::<CachedView>::empty());
        assert(Seq::<CachedView>::empty().push(e) == seq![e]);
        assert(without_key(seq![e], x.key) == seq![e]);
        lemma_without_key_len(p, x.key);
        lemma_without_key_len(q, x.key);
        let wp = without_key(p, x.key);
        let wq = without_key(q, x.key);
        let t = without_key(c, x.key).push(x);
        assert(t == wp + seq![e] + wq.push(x));
        assert(t[wp.len() as int] == e);
        assert(r == after_insert(c, x));
        if t.len() > MAX_CACHE_ENTRIES {
            assert(wp.len() >= 1);
            assert(r == t.drop_first());
            assert(r[wp.len() - 1] == e);
        } else {
            assert(r == t);
        }
    }
}

/// An answer stays the usable answer for its key while it is no older than
/// [`CACHE_TTL_MS`] and fewer than [`MAX_CACHE_ENTRIES`] answers for other
/// keys have been stored since: within that time the upstream service is
/// asked at most once per coordinate key.
pub proof fn lemma_stored_answer_stays_fresh(s: Seq<CachedView>, e: CachedView, others: Seq<CachedView>, now: u64)
    requires
        keys_unique(s),
        s.len() <= MAX_CACHE_ENTRIES,
        others.len() < MAX_CACHE_ENTRIES,
        forall|j: int| 0 <= j < others.len() ==> (#[trigger] others[j]).key != e.key,
        elapsed(now, e.stored_at_ms) <= CACHE_TTL_MS,
    ensures
        fresh_in(after_inserts(after_insert(s, e), others), e.key, now) == Some(e.value),
{
    lemma_answer_survives(s, e, others);
    let r = after_inserts(after_insert(s, e), others);
    let i = choose|i: int| 0 <= i < r.len() && #[trigger] r[i] == e && r.len() - 1 - i <= others.len();
    assert(r[i].key == e.key && elapsed(now, r[i].stored_at_ms) <= CACHE_TTL_MS);
    let j = choose|j: int| 0 <= j < r.len() && (#[trigger] r[j]).key == e.key && elapsed(now, r[j].stored_at_ms) <= CACHE_TTL_MS;
    assert(j == i);
}

} // verus!
