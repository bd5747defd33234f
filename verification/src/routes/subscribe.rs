//! The checks that a subscribe or unsubscribe request goes through before
//! anything is stored.
use crate::models::subscription::{
    band_normalized, bands_view, is_valid_level, lemma_valid_level_is_normalized, normalize_bark_level, normalized_level, BandView,
    NotificationBand, validate_bark_level,
};
use crate::db::subscription_store::{classify_error, contains_seq, not_found_message, StoreErrorKind};
use crate::source_registry::{find, registry, registry_len};
use crate::text::{lemma_trim_of_trimmed, utf8_len, utf8_width, is_ascii_alphanumeric, str_eq, trim, trim_to_string, trimmed_chars, chars_of};
use vstd::prelude::*;

verus! {

broadcast use vstd::string::group_string_axioms;

/// Most locations that one subscription may watch.
pub const MAX_LOCATIONS: usize = 3;

/// Most characters of a location's name or administrative field.
pub const MAX_LOCATION_NAME_CHARS: usize = 80;

/// Most notification bands of one subscription.
pub const MAX_NOTIFY_BANDS: usize = 3;

/// Most characters of a band's label.
pub const MAX_BAND_LABEL_CHARS: usize = 32;

// ---------------------------------------------------------------- Bark IDs

/// Why a Bark ID was refused.
#[derive(Debug, Clone, Copy, PartialEq, Eq, Structural)]
pub enum BarkIdError {
    Empty,
    TooLong,
    InvalidCharacters,
}

impl BarkIdError {
    pub open spec fn message_spec(self) -> Seq<char> {
        match self {
            BarkIdError::Empty => "Bark ID 不能为空"@,
            BarkIdError::TooLong => "Bark ID 过长（最大64字符）"@,
            BarkIdError::InvalidCharacters => "Bark ID 只能包含字母、数字"@,
        }
    }

    /// The text shown to the user.
    pub fn message(&self) -> (m: &'static str)
        ensures
            m@ == self.message_spec(),
    {
        match self {
            BarkIdError::Empty => "Bark ID 不能为空",
            BarkIdError::TooLong => "Bark ID 过长（最大64字符）",
            BarkIdError::InvalidCharacters => "Bark ID 只能包含字母、数字",
        }
    }
}

/// The outcome of checking a raw Bark ID: the trimmed ID must be non-empty,
/// at most 64 bytes long in UTF-8, and made of ASCII letters and digits.
pub open spec fn bark_id_check(raw: Seq<char>) -> Result<Seq<char>, BarkIdError> {
    let t = trim(raw);
    if t.len() == 0 {
        Err(BarkIdError::Empty)
    } else if utf8_len(t) > 64 {
        Err(BarkIdError::TooLong)
    } else if !(forall|i: int| 0 <= i < t.len() ==> is_ascii_alphanumeric(#[trigger] t[i])) {
        Err(BarkIdError::InvalidCharacters)
    } else {
        Ok(t)
    }
}

proof fn lemma_utf8_len_prefix_monotone(s: Seq<char>, k: int)
    requires
        0 <= k <= s.len(),
    ensures
        utf8_len(s.take(k)) <= utf8_len(s),
    decreases s.len() - k,
{
    if k < s.len() {
        let d = s.drop_last();
        assert(d.take(k) == s.take(k));
        lemma_utf8_len_prefix_monotone(d, k);
    } else {
        assert(s.take(k) == s);
    }
}

pub fn validate_bark_id(raw: &str) -> (r: Result<String, BarkIdError>)
    ensures
        match r {
            Ok(id) => bark_id_check(raw@) == Ok::<Seq<char>, BarkIdError>(id@),
            Err(e) => bark_id_check(raw@) == Err::<Seq<char>, BarkIdError>(e),
        },
{
    let trimmed = trim_to_string(raw);
    let chars = chars_of(trimmed.as_str());
    if chars.len() == 0 {
        return Err(BarkIdError::Empty);
    }
    let mut bytes: usize = 0;
    let mut k: usize = 0;
    while k < chars.len()
        invariant
            k <= chars.len(),
            chars@ == trim(raw@),
            bytes == utf8_len(chars@.take(k as int)),
            bytes <= 4 * k,
        decreases chars.len() - k,
    {
        let u = chars[k] as u32;
        let w: usize = if u < 0x80 {
            1
        } else if u < 0x800 {
            2
        } else if u < 0x10000 {
            3
        } else {
            4
        };
        proof {
            let t = chars@.take(k + 1);
            assert(t.drop_last() == chars@.take(k as int));
            assert(t.last() == chars@[k as int]);
        }
        if bytes > 64 {
            proof { lemma_utf8_len_prefix_monotone(chars@, k as int); }
            return Err(BarkIdError::TooLong);
        }
        bytes = bytes + w;
        k += 1;
    }
    assert(chars@.take(chars.len() as int) == chars@);
    if bytes > 64 {
        return Err(BarkIdError::TooLong);
    }
    let mut i: usize = 0;
    while i < chars.len()
        invariant
            i <= chars.len(),
            chars@ == trim(raw@),
            chars.len() > 0,
            utf8_len(chars@) <= 64,
            forall|k: int| 0 <= k < i ==> is_ascii_alphanumeric(#[trigger] chars@[k]),
        decreases chars.len() - i,
    {
        let c = chars[i];
        if !(('a' <= c && c <= 'z') || ('A' <= c && c <= 'Z') || ('0' <= c && c <= '9')) {
            assert(!is_ascii_alphanumeric(chars@[i as int]));
            return Err(BarkIdError::InvalidCharacters);
        }
        i += 1;
    }
    Ok(trimmed)
}

// ---------------------------------------------------------- notify bands

/// Why a list of notification bands was refused.
#[derive(Debug, Clone, Copy, PartialEq, Eq, Structural)]
pub enum BandError {
    Missing,
    TooMany,
    InvalidLevel,
    DuplicateLevel,
    InvalidRange,
    LabelTooLong,
    Overlap,
}

impl BandError {
    pub open spec fn message_spec(self) -> Seq<char> {
        match self {
            BandError::Missing => "请至少添加一条通知级别规则"@,
            BandError::TooMany => "通知级别规则最多 3 条"@,
            BandError::InvalidLevel => "通知级别必须是 passive、active 或 critical"@,
            BandError::DuplicateLevel => "每个通知级别只能添加一条规则"@,
            BandError::InvalidRange => "通知级别烈度范围无效"@,
            BandError::LabelTooLong => "通知级别标签最多 32 个字符"@,
            BandError::Overlap => "通知级别烈度范围不能重叠"@,
        }
    }

    /// The text shown to the user.
    pub fn message(&self) -> (m: &'static str)
        ensures
            m@ == self.message_spec(),
    {
        match self {
            BandError::Missing => "请至少添加一条通知级别规则",
            BandError::TooMany => "通知级别规则最多 3 条",
            BandError::InvalidLevel => "通知级别必须是 passive、active 或 critical",
            BandError::DuplicateLevel => "每个通知级别只能添加一条规则",
            BandError::InvalidRange => "通知级别烈度范围无效",
            BandError::LabelTooLong => "通知级别标签最多 32 个字符",
            BandError::Overlap => "通知级别烈度范围不能重叠",
        }
    }
}

/// The bands of `s` whose `min` is `k`, in order.
pub open spec fn bands_with_min(s: Seq<BandView>, k: int) -> Seq<BandView>
    decreases s.len(),
{
    if s.len() == 0 {
        seq![]
    } else if s.last().min == k {
        bands_with_min(s.drop_last(), k).push(s.last())
    } else {
        bands_with_min(s.drop_last(), k)
    }
}

/// The bands of `s` whose `min` is below `k`, ordered by `min`, bands with
/// equal `min` in their order in `s`.
pub open spec fn sorted_below(s: Seq<BandView>, k: int) -> Seq<BandView>
    decreases k,
{
    if k <= 0 {
        seq![]
    } else {
        sorted_below(s, k - 1) + bands_with_min(s, k - 1)
    }
}

/// `s` stably sorted by `min`.
pub open spec fn sorted_by_min(s: Seq<BandView>) -> Seq<BandView> {
    sorted_below(s, 256)
}

/// Whether the intensities `min..=max` meet those of band `b`.
pub open spec fn ranges_meet(b: BandView, min: u8, max: u8) -> bool {
    b.min <= max && min <= b.max
}

/// The check of one band `b` after the accepted bands `prev`: its level is
/// normalised and must be a Bark level not used before; its range must be
/// ordered and within 0..=99; a critical band ending below 7 is widened to
/// 99; its trimmed label must have at most 32 characters; its range must not
/// meet an earlier one.
pub open spec fn check_band(prev: Seq<BandView>, b: BandView) -> Result<BandView, BandError> {
    let level = normalized_level(b.level);
    if !is_valid_level(level) {
        Err(BandError::InvalidLevel)
    } else if exists|j: int| 0 <= j < prev.len() && (#[trigger] prev[j]).level == level {
        Err(BandError::DuplicateLevel)
    } else if b.min > b.max || b.min > 99 || b.max > 99 {
        Err(BandError::InvalidRange)
    } else {
        let max: u8 = if level == "critical"@ && b.max < 7 {
            99
        } else {
            b.max
        };
        let label = trim(b.label);
        if label.len() > 32 {
            Err(BandError::LabelTooLong)
        } else if exists|j: int| 0 <= j < prev.len() && ranges_meet(#[trigger] prev[j], b.min, max) {
            Err(BandError::Overlap)
        } else {
            Ok(BandView { min: b.min, max, level, label })
        }
    }
}

/// The bands of `s` checked one after the other; the first refusal wins.
pub open spec fn check_bands(s: Seq<BandView>) -> Result<Seq<BandView>, BandError>
    decreases s.len(),
{
    if s.len() == 0 {
        Ok(seq![])
    } else {
        match check_bands(s.drop_last()) {
            Err(e) => Err(e),
            Ok(prev) => match check_band(prev, s.last()) {
                Err(e) => Err(e),
                Ok(b) => Ok(prev.push(b)),
            },
        }
    }
}

/// The outcome of normalising a subscription's bands: one to three bands,
/// sorted by `min`, each passing [`check_band`].
pub open spec fn notify_bands_check(s: Seq<BandView>) -> Result<Seq<BandView>, BandError> {
    if s.len() == 0 {
        Err(BandError::Missing)
    } else if s.len() > 3 {
        Err(BandError::TooMany)
    } else {
        check_bands(sorted_by_min(s))
    }
}

proof fn lemma_check_bands_prefix_err(s: Seq<BandView>, i: int, e: BandError)
    requires
        0 <= i <= s.len(),
        check_bands(s.take(i)) == Err::<Seq<BandView>, BandError>(e),
    ensures
        check_bands(s) == Err::<Seq<BandView>, BandError>(e),
    decreases s.len() - i,
{
    if i == s.len() {
        assert(s.take(i) == s);
    } else {
        let d = s.drop_last();
        assert(d.take(i) == s.take(i));
        lemma_check_bands_prefix_err(d, i, e);
    }
}

/// Copies of the bands of `bands` whose `min` is `k`, in order.
fn collect_with_min(bands: &Vec<NotificationBand>, k: u8, out: &mut Vec<NotificationBand>)
    ensures
        bands_view(final(out)@) == bands_view(old(out)@) + bands_with_min(bands_view(bands@), k as int),
{
    let ghost start = bands_view(out@);
    let mut i: usize = 0;
    while i < bands.len()
        invariant
            i <= bands.len(),
            bands_view(out@) == start + bands_with_min(bands_view(bands@).take(i as int), k as int),
        decreases bands.len() - i,
    {
        let ghost before = bands_view(out@);
        proof {
            let t = bands_view(bands@).take(i + 1);
            assert(t.drop_last() == bands_view(bands@).take(i as int));
            assert(t.last() == bands@[i as int]@);
        }
        if bands[i].min == k {
            let b = crate::models::subscription::copy_band(&bands[i]);
            out.push(b);
            assert(bands_view(out@) == before.push(b@));
        } else {
            assert(bands_view(out@) == before);
        }
        i += 1;
    }
    assert(bands_view(bands@).take(bands.len() as int) == bands_view(bands@));
}

/// Copies of `bands`, stably sorted by `min`.
fn sort_bands_by_min(bands: &Vec<NotificationBand>) -> (r: Vec<NotificationBand>)
    ensures
        bands_view(r@) == sorted_by_min(bands_view(bands@)),
{
    let mut out: Vec<NotificationBand> = Vec::new();
    let mut k: u16 = 0;
    while k < 256
        invariant
            k <= 256,
            bands_view(out@) == sorted_below(bands_view(bands@), k as int),
        decreases 256 - k,
    {
        collect_with_min(bands, k as u8, &mut out);
        k += 1;
    }
    out
}

/// Whether some band of `prev` has level `level`.
fn has_level(prev: &Vec<NotificationBand>, level: &str) -> (r: bool)
    ensures
        r == exists|j: int| 0 <= j < prev.len() && (#[trigger] bands_view(prev@)[j]).level == level@,
{
    let ghost pv = bands_view(prev@);
    let mut j: usize = 0;
    while j < prev.len()
        invariant
            pv == bands_view(prev@),
            j <= prev.len(),
            forall|m: int| 0 <= m < j ==> (#[trigger] pv[m]).level != level@,
        decreases prev.len() - j,
    {
        if str_eq(prev[j].level.as_str(), level) {
            assert(pv[j as int].level == level@);
            return true;
        }
        j += 1;
    }
    false
}

/// Whether some band of `prev` meets the intensities `min..=max`.
fn meets_any(prev: &Vec<NotificationBand>, min: u8, max: u8) -> (r: bool)
    ensures
        r == exists|j: int| 0 <= j < prev.len() && ranges_meet(#[trigger] bands_view(prev@)[j], min, max),
{
    let ghost pv = bands_view(prev@);
    let mut j: usize = 0;
    while j < prev.len()
        invariant
            pv == bands_view(prev@),
            j <= prev.len(),
            forall|m: int| 0 <= m < j ==> !ranges_meet(#[trigger] pv[m], min, max),
        decreases prev.len() - j,
    {
        if prev[j].min <= max && min <= prev[j].max {
            assert(ranges_meet(pv[j as int], min, max));
            return true;
        }
        j += 1;
    }
    false
}

/// The check of one band after the accepted bands `prev`, as
/// [`check_band`] states it.
fn check_one_band(prev: &Vec<NotificationBand>, b: &NotificationBand) -> (r: Result<NotificationBand, BandError>)
    ensures
        match r {
            Ok(nb) => check_band(bands_view(prev@), b@) == Ok::<BandView, BandError>(nb@),
            Err(e) => check_band(bands_view(prev@), b@) == Err::<BandView, BandError>(e),
        },
{
    let level = normalize_bark_level(b.level.as_str());
    if !validate_bark_level(level.as_str()) {
        return Err(BandError::InvalidLevel);
    }
    if has_level(prev, level.as_str()) {
        return Err(BandError::DuplicateLevel);
    }
    if b.min > b.max || b.min > 99 || b.max > 99 {
        return Err(BandError::InvalidRange);
    }
    let max = if str_eq(level.as_str(), "critical") && b.max < 7 {
        99
    } else {
        b.max
    };
    let label = trimmed_chars(b.label.as_str());
    if label.len() > MAX_BAND_LABEL_CHARS {
        return Err(BandError::LabelTooLong);
    }
    if meets_any(prev, b.min, max) {
        return Err(BandError::Overlap);
    }
    let label = crate::text::string_from_chars(&label);
    Ok(NotificationBand { min: b.min, max, level, label })
}

/// The bands of a subscribe request made ready to store: one to three bands,
/// sorted by `min`, with normalised levels and trimmed labels, critical bands
/// ending below 7 widened to 99, and the first refusal reported.
pub fn normalize_notify_bands(bands: &Vec<NotificationBand>) -> (r: Result<Vec<NotificationBand>, BandError>)
    ensures
        match r {
            Ok(v) => notify_bands_check(bands_view(bands@)) == Ok::<Seq<BandView>, BandError>(bands_view(v@)),
            Err(e) => notify_bands_check(bands_view(bands@)) == Err::<Seq<BandView>, BandError>(e),
        },
{
    if bands.len() == 0 {
        return Err(BandError::Missing);
    }
    if bands.len() > MAX_NOTIFY_BANDS {
        return Err(BandError::TooMany);
    }
    let sorted = sort_bands_by_min(bands);
    let ghost sv = bands_view(sorted@);
    let mut out: Vec<NotificationBand> = Vec::new();
    let mut i: usize = 0;
    assert(sv.take(0) == Seq::<BandView>::empty());
    assert(bands_view(out@) == Seq::<BandView>::empty());
    while i < sorted.len()
        invariant
            sv == bands_view(sorted@),
            sv == sorted_by_min(bands_view(bands@)),
            0 < bands.len() <= 3,
            i <= sorted.len(),
            check_bands(sv.take(i as int)) == Ok::<Seq<BandView>, BandError>(bands_view(out@)),
        decreases sorted.len() - i,
    {
        proof {
            let t = sv.take(i + 1);
            assert(t.drop_last() == sv.take(i as int));
            assert(t.last() == sorted@[i as int]@);
        }
        match check_one_band(&out, &sorted[i]) {
            Err(e) => {
                proof {
                    let t = sv.take(i + 1);
                    assert(check_band(bands_view(out@), t.last()) == Err::<BandView, BandError>(e));
                    assert(check_bands(t) == Err::<Seq<BandView>, BandError>(e));
                    lemma_check_bands_prefix_err(sv, i + 1, e);
                }
                return Err(e);
            },
            Ok(b) => {
                let ghost before = bands_view(out@);
                out.push(b);
                assert(bands_view(out@) == before.push(b@));
            },
        }
        i += 1;
    }
    assert(sv.take(sorted.len() as int) == sv);
    Ok(out)
}

/// The outcome of resolving a request's bands: none are needed when
/// earthquake warnings are off and none were given; otherwise
/// [`notify_bands_check`].
pub open spec fn resolve_bands_check(earthquake_warning: bool, s: Seq<BandView>) -> Result<Seq<BandView>, BandError> {
    if !earthquake_warning && s.len() == 0 {
        Ok(seq![])
    } else {
        notify_bands_check(s)
    }
}

/// The bands of a request, as [`resolve_bands_check`] states.
pub fn resolve_notify_bands(earthquake_warning: bool, bands: &Vec<NotificationBand>) -> (r: Result<Vec<NotificationBand>, BandError>)
    ensures
        match r {
            Ok(v) => resolve_bands_check(earthquake_warning, bands_view(bands@)) == Ok::<Seq<BandView>, BandError>(bands_view(v@)),
            Err(e) => resolve_bands_check(earthquake_warning, bands_view(bands@)) == Err::<Seq<BandView>, BandError>(e),
        },
{
    if !earthquake_warning && bands.len() == 0 {
        let v: Vec<NotificationBand> = Vec::new();
        assert(bands_view(v@) == Seq::<BandView>::empty());
        Ok(v)
    } else {
        normalize_notify_bands(bands)
    }
}

/// A Bark ID that was accepted is accepted again, unchanged: the stored ID
/// is the canonical form a later unsubscribe request carries.
pub proof fn lemma_accepted_bark_id_is_canonical(raw: Seq<char>)
    ensures
        bark_id_check(raw) matches Ok(id) ==> bark_id_check(id) == Ok::<Seq<char>, BarkIdError>(id),
{
    if let Ok(id) = bark_id_check(raw) {
        assert(is_ascii_alphanumeric(id[0]));
        assert(is_ascii_alphanumeric(id[id.len() - 1]));
        lemma_trim_of_trimmed(id);
    }
}

/// The bands of an accepted subscribe request pass the normalisation that
/// storing and reloading a subscription applies, unchanged: every level is
/// already a normalised Bark level.
pub proof fn lemma_accepted_bands_are_stored_unchanged(earthquake_warning: bool, s: Seq<BandView>)
    ensures
        resolve_bands_check(earthquake_warning, s) matches Ok(out) ==> forall|j: int|
            0 <= j < out.len() ==> is_valid_level(normalized_level((#[trigger] out[j]).level))
                && band_normalized(out[j]) == out[j],
{
    lemma_normalized_bands_well_formed(s);
    if let Ok(out) = resolve_bands_check(earthquake_warning, s) {
        assert forall|j: int| 0 <= j < out.len() implies is_valid_level(normalized_level((#[trigger] out[j]).level))
            && band_normalized(out[j]) == out[j] by {
            lemma_valid_level_is_normalized(out[j].level);
        }
    }
}

/// Given bands are never dropped: a non-empty list goes through
/// [`notify_bands_check`] whatever the earthquake-warning switch, and when
/// accepted every given band comes back, one for one, with a Bark level.
/// Only an empty list with warnings off gives no bands; an empty list with
/// warnings on is refused.
pub proof fn lemma_given_bands_are_checked(earthquake_warning: bool, s: Seq<BandView>)
    ensures
        s.len() > 0 ==> resolve_bands_check(earthquake_warning, s) == notify_bands_check(s),
        s.len() == 0 && earthquake_warning ==> resolve_bands_check(earthquake_warning, s) == Err::<Seq<BandView>, BandError>(BandError::Missing),
        s.len() == 0 && !earthquake_warning ==> resolve_bands_check(earthquake_warning, s) == Ok::<Seq<BandView>, BandError>(seq![]),
        resolve_bands_check(earthquake_warning, s) matches Ok(out) ==> out.len() == s.len()
            && forall|i: int| 0 <= i < out.len() ==> is_valid_level((#[trigger] out[i]).level),
{
    if s.len() > 0 && s.len() <= 3 {
        let sorted = sorted_by_min(s);
        lemma_checked_bands_well_formed(sorted);
        lemma_sorted_below_len(s, 256);
        lemma_count_below_ends(s);
    }
}

/// The shape of a band list that passed [`check_bands`] on bands sorted by
/// `min`: every level is a Bark level and occurs once, every range lies in
/// `0..=99`, ranges are sorted by `min` and no two meet, and critical bands
/// reach at least 7.
pub open spec fn bands_well_formed(out: Seq<BandView>) -> bool {
    &&& forall|i: int| 0 <= i < out.len() ==> is_valid_level((#[trigger] out[i]).level)
    &&& forall|i: int| 0 <= i < out.len() ==> (#[trigger] out[i]).min <= out[i].max <= 99
    &&& forall|i: int| 0 <= i < out.len() && (#[trigger] out[i]).level == "critical"@ ==> out[i].max >= 7
    &&& forall|i: int, j: int| 0 <= i < j < out.len() ==> (#[trigger] out[i]).level != (#[trigger] out[j]).level
    &&& forall|i: int, j: int| 0 <= i < j < out.len() ==> !ranges_meet(#[trigger] out[i], (#[trigger] out[j]).min, out[j].max)
}

/// `s` is sorted by `min`.
pub open spec fn sorted_by_min_order(s: Seq<BandView>) -> bool {
    forall|i: int, j: int| 0 <= i < j < s.len() ==> (#[trigger] s[i]).min <= (#[trigger] s[j]).min
}

/// Bands that pass the checks form a well-formed list, in the order of
/// their input.
pub proof fn lemma_checked_bands_well_formed(s: Seq<BandView>)
    ensures
        check_bands(s) matches Ok(out) ==> bands_well_formed(out) && out.len() == s.len() && (forall|i: int|
            0 <= i < s.len() ==> (#[trigger] out[i]).min == s[i].min),
    decreases s.len(),
{
    if s.len() > 0 {
        let d = s.drop_last();
        lemma_checked_bands_well_formed(d);
        if let Ok(prev) = check_bands(d) {
            if let Ok(b) = check_band(prev, s.last()) {
                let out = prev.push(b);
                assert forall|i: int| 0 <= i < s.len() implies (#[trigger] out[i]).min == s[i].min by {
                    if i < d.len() {
                        assert(out[i] == prev[i]);
                        assert(d[i] == s[i]);
                    }
                }
                assert forall|i: int, j: int| 0 <= i < j < out.len() implies (#[trigger] out[i]).level != (#[trigger] out[j]).level by {
                    if j == out.len() - 1 {
                        assert(out[i] == prev[i]);
                    }
                }
                assert forall|i: int, j: int| 0 <= i < j < out.len() implies !ranges_meet(#[trigger] out[i], (#[trigger] out[j]).min, out[j].max) by {
                    if j == out.len() - 1 {
                        assert(out[i] == prev[i]);
                    }
                }
            }
        }
    }
}

/// A band list accepted by [`normalize_notify_bands`] holds one to three
/// bands, is sorted by `min`, and is well formed.
pub proof fn lemma_normalized_bands_well_formed(s: Seq<BandView>)
    ensures
        notify_bands_check(s) matches Ok(out) ==> 1 <= out.len() <= 3 && bands_well_formed(out) && sorted_by_min_order(out),
{
    if s.len() > 0 && s.len() <= 3 {
        let sorted = sorted_by_min(s);
        lemma_checked_bands_well_formed(sorted);
        lemma_sorted_below(s, 256);
        if let Ok(out) = check_bands(sorted) {
            assert forall|i: int, j: int| 0 <= i < j < out.len() implies (#[trigger] out[i]).min <= (#[trigger] out[j]).min by {
                assert(out[i].min == sorted[i].min);
                assert(out[j].min == sorted[j].min);
            }
            lemma_sorted_below_len(s, 256);
            lemma_count_below_ends(s);
        }
    }
}

proof fn lemma_bands_with_min(s: Seq<BandView>, k: int)
    ensures
        forall|i: int| 0 <= i < bands_with_min(s, k).len() ==> (#[trigger] bands_with_min(s, k)[i]).min == k,
        bands_with_min(s, k).len() <= s.len(),
    decreases s.len(),
{
    if s.len() > 0 {
        lemma_bands_with_min(s.drop_last(), k);
    }
}

proof fn lemma_sorted_below(s: Seq<BandView>, k: int)
    ensures
        sorted_by_min_order(sorted_below(s, k)),
        forall|i: int| 0 <= i < sorted_below(s, k).len() ==> (#[trigger] sorted_below(s, k)[i]).min < k,
    decreases k,
{
    if k > 0 {
        lemma_sorted_below(s, k - 1);
        lemma_bands_with_min(s, k - 1);
        let a = sorted_below(s, k - 1);
        let b = bands_with_min(s, k - 1);
        let t = a + b;
        assert forall|i: int, j: int| 0 <= i < j < t.len() implies (#[trigger] t[i]).min <= (#[trigger] t[j]).min by {
            if j < a.len() {
            } else if i < a.len() {
                assert(t[j] == b[j - a.len()]);
            } else {
                assert(t[i] == b[i - a.len()]);
                assert(t[j] == b[j - a.len()]);
            }
        }
        assert forall|i: int| 0 <= i < t.len() implies (#[trigger] t[i]).min < k by {
            if i >= a.len() {
                assert(t[i] == b[i - a.len()]);
            }
        }
    }
}

proof fn lemma_count_below_ends(s: Seq<BandView>)
    ensures
        count_below(s, 0) == 0,
        count_below(s, 256) == s.len(),
    decreases s.len(),
{
    if s.len() > 0 {
        lemma_count_below_ends(s.drop_last());
    }
}

proof fn lemma_sorted_below_len(s: Seq<BandView>, k: int)
    ensures
        0 <= k ==> sorted_below(s, k).len() == count_below(s, k),
    decreases k,
{
    if k > 0 {
        lemma_sorted_below_len(s, k - 1);
        lemma_with_min_len(s, k - 1);
    } else if k == 0 {
        lemma_count_below_ends(s);
    }
}

/// Number of bands of `s` whose `min` is below `k`.
pub open spec fn count_below(s: Seq<BandView>, k: int) -> nat
    decreases s.len(),
{
    if s.len() == 0 {
        0
    } else {
        count_below(s.drop_last(), k) + if s.last().min < k { 1nat } else { 0nat }
    }
}

proof fn lemma_with_min_len(s: Seq<BandView>, k: int)
    ensures
        count_below(s, k + 1) == count_below(s, k) + bands_with_min(s, k).len(),
    decreases s.len(),
{
    if s.len() > 0 {
        lemma_with_min_len(s.drop_last(), k);
    }
}

// ------------------------------------------------------------- locations

/// The text fields of one watched location.
#[derive(Debug, Clone)]
pub struct LocationText {
    pub name: String,
    pub province: String,
    pub city: String,
    pub district: String,
}

/// The mathematical content of a [`LocationText`].
pub struct LocationTextView {
    pub name: Seq<char>,
    pub province: Seq<char>,
    pub city: Seq<char>,
    pub district: Seq<char>,
}

impl View for LocationText {
    type V = LocationTextView;

    open spec fn view(&self) -> LocationTextView {
        LocationTextView {
            name: self.name@,
            province: self.province@,
            city: self.city@,
            district: self.district@,
        }
    }
}

/// The views of a sequence of locations.
pub open spec fn locations_view(v: Seq<LocationText>) -> Seq<LocationTextView> {
    v.map_values(|l: LocationText| l@)
}

/// A text field of a location.
#[derive(Debug, Clone, Copy, PartialEq, Eq, Structural)]
pub enum LocationField {
    Name,
    Province,
    City,
    District,
}

impl LocationField {
    pub open spec fn label_spec(self) -> Seq<char> {
        match self {
            LocationField::Name => "名称"@,
            LocationField::Province => "省级行政区"@,
            LocationField::City => "城市"@,
            LocationField::District => "区县"@,
        }
    }

    /// The field's name as the user sees it.
    pub fn label(&self) -> (l: &'static str)
        ensures
            l@ == self.label_spec(),
    {
        match self {
            LocationField::Name => "名称",
            LocationField::Province => "省级行政区",
            LocationField::City => "城市",
            LocationField::District => "区县",
        }
    }
}

/// Why the locations of a request were refused.
#[derive(Debug, Clone, Copy, PartialEq, Eq, Structural)]
pub enum LocationError {
    Missing,
    TooMany,
    InvalidCoordinates,
    FieldTooLong(LocationField),
}

impl LocationError {
    pub open spec fn message_spec(self) -> Seq<char> {
        match self {
            LocationError::Missing => "请至少添加一个有效监测地点"@,
            LocationError::TooMany => "监测地点最多 3 个"@,
            LocationError::InvalidCoordinates => "监测地点坐标无效"@,
            LocationError::FieldTooLong(f) => "监测地点"@ + f.label_spec() + "最多 80 个字符"@,
        }
    }

    /// The text shown to the user.
    pub fn message(&self) -> (m: String)
        ensures
            m@ == self.message_spec(),
    {
        match self {
            LocationError::Missing => String::from_str("请至少添加一个有效监测地点"),
            LocationError::TooMany => String::from_str("监测地点最多 3 个"),
            LocationError::InvalidCoordinates => String::from_str("监测地点坐标无效"),
            LocationError::FieldTooLong(f) => {
                let mut m = String::from_str("监测地点");
                m.append(f.label());
                m.append("最多 80 个字符");
                m
            },
        }
    }
}

/// A field trimmed, refused when it has more than 80 characters.
pub open spec fn field_check(v: Seq<char>, f: LocationField) -> Result<Seq<char>, LocationError> {
    let t = trim(v);
    if t.len() > 80 {
        Err(LocationError::FieldTooLong(f))
    } else {
        Ok(t)
    }
}

/// The check of one location: name, province, city and district in turn.
pub open spec fn location_check(l: LocationTextView) -> Result<LocationTextView, LocationError> {
    match field_check(l.name, LocationField::Name) {
        Err(e) => Err(e),
        Ok(name) => match field_check(l.province, LocationField::Province) {
            Err(e) => Err(e),
            Ok(province) => match field_check(l.city, LocationField::City) {
                Err(e) => Err(e),
                Ok(city) => match field_check(l.district, LocationField::District) {
                    Err(e) => Err(e),
                    Ok(district) => Ok(LocationTextView { name, province, city, district }),
                },
            },
        },
    }
}

/// The locations of `s` checked one after the other; the first refusal wins.
pub open spec fn locations_check_all(s: Seq<LocationTextView>) -> Result<Seq<LocationTextView>, LocationError>
    decreases s.len(),
{
    if s.len() == 0 {
        Ok(seq![])
    } else {
        match locations_check_all(s.drop_last()) {
            Err(e) => Err(e),
            Ok(prev) => match location_check(s.last()) {
                Err(e) => Err(e),
                Ok(l) => Ok(prev.push(l)),
            },
        }
    }
}

/// The outcome of normalising a request's locations: one to three
/// locations, all with valid coordinates, each field trimmed to at most 80
/// characters.
pub open spec fn locations_check(s: Seq<LocationTextView>, coordinates_valid: bool) -> Result<Seq<LocationTextView>, LocationError> {
    if s.len() == 0 {
        Err(LocationError::Missing)
    } else if s.len() > 3 {
        Err(LocationError::TooMany)
    } else if !coordinates_valid {
        Err(LocationError::InvalidCoordinates)
    } else {
        locations_check_all(s)
    }
}

fn check_field(v: &String, f: LocationField) -> (r: Result<String, LocationError>)
    ensures
        match r {
            Ok(t) => field_check(v@, f) == Ok::<Seq<char>, LocationError>(t@),
            Err(e) => field_check(v@, f) == Err::<Seq<char>, LocationError>(e),
        },
{
    let t = trimmed_chars(v.as_str());
    if t.len() > MAX_LOCATION_NAME_CHARS {
        Err(LocationError::FieldTooLong(f))
    } else {
        Ok(crate::text::string_from_chars(&t))
    }
}

fn check_location(l: &LocationText) -> (r: Result<LocationText, LocationError>)
    ensures
        match r {
            Ok(t) => location_check(l@) == Ok::<LocationTextView, LocationError>(t@),
            Err(e) => location_check(l@) == Err::<LocationTextView, LocationError>(e),
        },
{
    let name = match check_field(&l.name, LocationField::Name) {
        Ok(v) => v,
        Err(e) => return Err(e),
    };
    let province = match check_field(&l.province, LocationField::Province) {
        Ok(v) => v,
        Err(e) => return Err(e),
    };
    let city = match check_field(&l.city, LocationField::City) {
        Ok(v) => v,
        Err(e) => return Err(e),
    };
    let district = match check_field(&l.district, LocationField::District) {
        Ok(v) => v,
        Err(e) => return Err(e),
    };
    Ok(LocationText { name, province, city, district })
}

proof fn lemma_locations_prefix_err(s: Seq<LocationTextView>, i: int, e: LocationError)
    requires
        0 <= i <= s.len(),
        locations_check_all(s.take(i)) == Err::<Seq<LocationTextView>, LocationError>(e),
    ensures
        locations_check_all(s) == Err::<Seq<LocationTextView>, LocationError>(e),
    decreases s.len() - i,
{
    if i == s.len() {
        assert(s.take(i) == s);
    } else {
        let d = s.drop_last();
        assert(d.take(i) == s.take(i));
        lemma_locations_prefix_err(d, i, e);
    }
}

proof fn lemma_locations_check_all(s: Seq<LocationTextView>)
    ensures
        locations_check_all(s) is Ok <==> forall|i: int| 0 <= i < s.len() ==> {
            &&& trim((#[trigger] s[i]).name).len() <= 80
            &&& trim(s[i].province).len() <= 80
            &&& trim(s[i].city).len() <= 80
            &&& trim(s[i].district).len() <= 80
        },
        locations_check_all(s) matches Ok(out) ==> out.len() == s.len() && forall|i: int| 0 <= i < s.len() ==> {
            &&& (#[trigger] out[i]).name == trim(s[i].name)
            &&& out[i].province == trim(s[i].province)
            &&& out[i].city == trim(s[i].city)
            &&& out[i].district == trim(s[i].district)
        },
    decreases s.len(),
{
    if s.len() > 0 {
        let d = s.drop_last();
        lemma_locations_check_all(d);
        assert forall|i: int| 0 <= i < d.len() implies #[trigger] d[i] == s[i] by {}
        let n = s.len() - 1;
        assert(s[n] == s.last());
        if let Ok(prev) = locations_check_all(d) {
            if location_check(s.last()) is Err {
                assert(!({
                    &&& trim(s[n].name).len() <= 80
                    &&& trim(s[n].province).len() <= 80
                    &&& trim(s[n].city).len() <= 80
                    &&& trim(s[n].district).len() <= 80
                }));
            }
            if let Ok(l) = location_check(s.last()) {
                let out = prev.push(l);
                assert forall|i: int| 0 <= i < s.len() implies {
                    &&& trim((#[trigger] s[i]).name).len() <= 80
                    &&& trim(s[i].province).len() <= 80
                    &&& trim(s[i].city).len() <= 80
                    &&& trim(s[i].district).len() <= 80
                } by {
                    if i < d.len() {
                        assert(d[i] == s[i]);
                    }
                }
                assert forall|i: int| 0 <= i < s.len() implies {
                    &&& (#[trigger] out[i]).name == trim(s[i].name)
                    &&& out[i].province == trim(s[i].province)
                    &&& out[i].city == trim(s[i].city)
                    &&& out[i].district == trim(s[i].district)
                } by {
                    if i < d.len() {
                        assert(out[i] == prev[i]);
                        assert(d[i] == s[i]);
                    }
                }
            }
        } else {
            let e = choose|i: int| 0 <= i < d.len() && !({
                &&& trim((#[trigger] d[i]).name).len() <= 80
                &&& trim(d[i].province).len() <= 80
                &&& trim(d[i].city).len() <= 80
                &&& trim(d[i].district).len() <= 80
            });
            assert(d[e] == s[e]);
        }
    }
}

/// The locations of an accepted request are the given ones, one for one
/// and in order, each field trimmed; a request is accepted exactly when it
/// has one to three locations, all with valid coordinates, and no trimmed
/// field is longer than 80 characters.
pub proof fn lemma_accepted_locations_are_trimmed(s: Seq<LocationTextView>, coordinates_valid: bool)
    ensures
        locations_check(s, coordinates_valid) matches Ok(out) ==> out.len() == s.len() && forall|i: int| 0 <= i < s.len() ==> {
            &&& (#[trigger] out[i]).name == trim(s[i].name)
            &&& out[i].province == trim(s[i].province)
            &&& out[i].city == trim(s[i].city)
            &&& out[i].district == trim(s[i].district)
        },
        locations_check(s, coordinates_valid) is Ok <==> {
            &&& 1 <= s.len() <= 3
            &&& coordinates_valid
            &&& forall|i: int| 0 <= i < s.len() ==> {
                &&& trim((#[trigger] s[i]).name).len() <= 80
                &&& trim(s[i].province).len() <= 80
                &&& trim(s[i].city).len() <= 80
                &&& trim(s[i].district).len() <= 80
            }
        },
{
    lemma_locations_check_all(s);
}

/// The text of a request's locations made ready to store, given whether
/// all their coordinates are valid: one to three locations, every field
/// trimmed, none longer than 80 characters; the first refusal is reported.
pub fn normalize_locations(locations: &Vec<LocationText>, coordinates_valid: bool) -> (r: Result<Vec<LocationText>, LocationError>)
    ensures
        match r {
            Ok(v) => locations_check(locations_view(locations@), coordinates_valid)
                == Ok::<Seq<LocationTextView>, LocationError>(locations_view(v@)),
            Err(e) => locations_check(locations_view(locations@), coordinates_valid)
                == Err::<Seq<LocationTextView>, LocationError>(e),
        },
{
    if locations.len() == 0 {
        return Err(LocationError::Missing);
    }
    if locations.len() > MAX_LOCATIONS {
        return Err(LocationError::TooMany);
    }
    if !coordinates_valid {
        return Err(LocationError::InvalidCoordinates);
    }
    let ghost lv = locations_view(locations@);
    let mut out: Vec<LocationText> = Vec::new();
    let mut i: usize = 0;
    assert(lv.take(0) == Seq::<LocationTextView>::empty());
    assert(locations_view(out@) == Seq::<LocationTextView>::empty());
    while i < locations.len()
        invariant
            lv == locations_view(locations@),
            0 < locations.len() <= 3,
            coordinates_valid,
            i <= locations.len(),
            locations_check_all(lv.take(i as int)) == Ok::<Seq<LocationTextView>, LocationError>(locations_view(out@)),
        decreases locations.len() - i,
    {
        proof {
            let t = lv.take(i + 1);
            assert(t.drop_last() == lv.take(i as int));
            assert(t.last() == locations@[i as int]@);
        }
        match check_location(&locations[i]) {
            Err(e) => {
                proof {
                    let t = lv.take(i + 1);
                    assert(locations_check_all(t) == Err::<Seq<LocationTextView>, LocationError>(e));
                    lemma_locations_prefix_err(lv, i + 1, e);
                }
                return Err(e);
            },
            Ok(l) => {
                let ghost before = locations_view(out@);
                out.push(l);
                assert(locations_view(out@) == before.push(l@));
            },
        }
        i += 1;
    }
    assert(lv.take(locations.len() as int) == lv);
    Ok(out)
}

// ------------------------------------------------------------- sources

/// Whether `source` is the identifier of a registered source.
pub open spec fn is_known_source(source: Seq<char>) -> bool {
    exists|i: int| 0 <= i < registry_len() && (#[trigger] registry()[i]).id == source
}

pub fn known_source(source: &str) -> (b: bool)
    ensures
        b == is_known_source(source@),
{
    find(source).is_some()
}

/// Whether a request's per-source switches may be stored: at most 64 of
/// them, each naming a registered source.
pub fn valid_source_overrides(sources: &Vec<String>) -> (b: bool)
    ensures
        b == (sources.len() <= 64 && forall|i: int| 0 <= i < sources.len() ==> is_known_source(#[trigger] sources@[i]@)),
{
    if sources.len() > 64 {
        return false;
    }
    let mut i: usize = 0;
    while i < sources.len()
        invariant
            i <= sources.len(),
            forall|k: int| 0 <= k < i ==> is_known_source(#[trigger] sources@[k]@),
        decreases sources.len() - i,
    {
        if !known_source(sources[i].as_str()) {
            return false;
        }
        i += 1;
    }
    true
}


/// Whether the per-source switches of a request may be stored.
pub open spec fn sources_acceptable(s: Seq<Seq<char>>) -> bool {
    s.len() <= 64 && forall|i: int| 0 <= i < s.len() ==> is_known_source(#[trigger] s[i])
}

// ------------------------------------------------------------ replies

/// The HTTP status of an answer.
#[derive(Debug, Clone, Copy, PartialEq, Eq, Structural)]
pub enum ReplyStatus {
    Success,
    BadRequest,
    NotFound,
    InternalServerError,
    BadGateway,
    ServiceUnavailable,
}

impl ReplyStatus {
    pub open spec fn code_spec(self) -> u16 {
        match self {
            ReplyStatus::Success => 200,
            ReplyStatus::BadRequest => 400,
            ReplyStatus::NotFound => 404,
            ReplyStatus::InternalServerError => 500,
            ReplyStatus::BadGateway => 502,
            ReplyStatus::ServiceUnavailable => 503,
        }
    }

    /// The numeric HTTP status code.
    pub fn code(&self) -> (c: u16)
        ensures
            c == self.code_spec(),
    {
        match self {
            ReplyStatus::Success => 200,
            ReplyStatus::BadRequest => 400,
            ReplyStatus::NotFound => 404,
            ReplyStatus::InternalServerError => 500,
            ReplyStatus::BadGateway => 502,
            ReplyStatus::ServiceUnavailable => 503,
        }
    }
}

/// A status and the message that goes with it.
#[derive(Debug, Clone)]
pub struct Reply {
    pub status: ReplyStatus,
    pub message: String,
}

/// `prefix` followed by `detail`.
fn joined(prefix: &str, detail: &str) -> (s: String)
    ensures
        s@ == prefix@ + detail@,
{
    let mut s = String::from_str(prefix);
    s.append(detail);
    s
}

// ---------------------------------------------------------- subscribing

/// What the request handler has gathered for a subscribe request before
/// any check: the raw Bark ID, the normalised Bark URL (`None` when it did
/// not parse) and whether the notifier accepts it, the locations' texts and
/// whether all their coordinates are valid, the earthquake-warning switch,
/// the bands, the refusal of the disaster rules (if any), and the sources
/// named by the per-source switches.
#[derive(Debug, Clone)]
pub struct SubscribeInput {
    pub bark_id: String,
    pub bark_url: Option<String>,
    pub bark_url_allowed: bool,
    pub locations: Vec<LocationText>,
    pub coordinates_valid: bool,
    pub earthquake_warning: bool,
    pub notify_bands: Vec<NotificationBand>,
    pub rules_error: Option<String>,
    pub sources: Vec<String>,
}

pub struct SubscribeInputView {
    pub bark_id: Seq<char>,
    pub bark_url: Option<Seq<char>>,
    pub bark_url_allowed: bool,
    pub locations: Seq<LocationTextView>,
    pub coordinates_valid: bool,
    pub earthquake_warning: bool,
    pub notify_bands: Seq<BandView>,
    pub rules_error: Option<Seq<char>>,
    pub sources: Seq<Seq<char>>,
}

/// The view of an optional string.
pub open spec fn option_text(o: Option<String>) -> Option<Seq<char>> {
    match o {
        Some(s) => Some(s@),
        None => None,
    }
}

impl View for SubscribeInput {
    type V = SubscribeInputView;

    open spec fn view(&self) -> SubscribeInputView {
        SubscribeInputView {
            bark_id: self.bark_id@,
            bark_url: option_text(self.bark_url),
            bark_url_allowed: self.bark_url_allowed,
            locations: locations_view(self.locations@),
            coordinates_valid: self.coordinates_valid,
            earthquake_warning: self.earthquake_warning,
            notify_bands: bands_view(self.notify_bands@),
            rules_error: option_text(self.rules_error),
            sources: self.sources@.map_values(|s: String| s@),
        }
    }
}

/// A subscribe request that passed every check, ready to be confirmed and
/// stored.
#[derive(Debug, Clone)]
pub struct AcceptedSubscription {
    pub bark_id: String,
    pub bark_url: String,
    pub locations: Vec<LocationText>,
    pub notify_bands: Vec<NotificationBand>,
}

pub struct AcceptedView {
    pub bark_id: Seq<char>,
    pub bark_url: Seq<char>,
    pub locations: Seq<LocationTextView>,
    pub notify_bands: Seq<BandView>,
}

impl View for AcceptedSubscription {
    type V = AcceptedView;

    open spec fn view(&self) -> AcceptedView {
        AcceptedView {
            bark_id: self.bark_id@,
            bark_url: self.bark_url@,
            locations: locations_view(self.locations@),
            notify_bands: bands_view(self.notify_bands@),
        }
    }
}

/// Why a subscribe request was refused.
#[derive(Debug, Clone)]
pub enum SubscribeRejection {
    BarkId(BarkIdError),
    BarkUrlInvalid,
    BarkUrlNotAllowed,
    Locations(LocationError),
    Bands(BandError),
    Rules(String),
    Sources,
}

pub enum RejectionView {
    BarkId(BarkIdError),
    BarkUrlInvalid,
    BarkUrlNotAllowed,
    Locations(LocationError),
    Bands(BandError),
    Rules(Seq<char>),
    Sources,
}

impl View for SubscribeRejection {
    type V = RejectionView;

    open spec fn view(&self) -> RejectionView {
        match self {
            SubscribeRejection::BarkId(e) => RejectionView::BarkId(*e),
            SubscribeRejection::BarkUrlInvalid => RejectionView::BarkUrlInvalid,
            SubscribeRejection::BarkUrlNotAllowed => RejectionView::BarkUrlNotAllowed,
            SubscribeRejection::Locations(e) => RejectionView::Locations(*e),
            SubscribeRejection::Bands(e) => RejectionView::Bands(*e),
            SubscribeRejection::Rules(m) => RejectionView::Rules(m@),
            SubscribeRejection::Sources => RejectionView::Sources,
        }
    }
}

impl RejectionView {
    pub open spec fn message_spec(self) -> Seq<char> {
        match self {
            RejectionView::BarkId(e) => e.message_spec(),
            RejectionView::BarkUrlInvalid => "Bark URL 无效"@,
            RejectionView::BarkUrlNotAllowed => "Bark URL 不在允许列表中"@,
            RejectionView::Locations(e) => e.message_spec(),
            RejectionView::Bands(e) => e.message_spec(),
            RejectionView::Rules(m) => m,
            RejectionView::Sources => "灾害来源配置无效"@,
        }
    }
}

impl SubscribeRejection {
    /// The answer to the refused request: always a bad request, with the
    /// refusal's text.
    pub fn reply(&self) -> (r: Reply)
        ensures
            r.status == ReplyStatus::BadRequest,
            r.message@ == self@.message_spec(),
    {
        let message = match self {
            SubscribeRejection::BarkId(e) => String::from_str(e.message()),
            SubscribeRejection::BarkUrlInvalid => String::from_str("Bark URL 无效"),
            SubscribeRejection::BarkUrlNotAllowed => String::from_str("Bark URL 不在允许列表中"),
            SubscribeRejection::Locations(e) => e.message(),
            SubscribeRejection::Bands(e) => String::from_str(e.message()),
            SubscribeRejection::Rules(m) => m.clone(),
            SubscribeRejection::Sources => String::from_str("灾害来源配置无效"),
        };
        Reply { status: ReplyStatus::BadRequest, message }
    }
}

/// The checks of a subscribe request in the order the handler makes them:
/// Bark ID, Bark URL, whether that URL is allowed, locations, bands,
/// disaster rules, per-source switches. The first refusal wins.
pub open spec fn subscribe_screen(i: SubscribeInputView) -> Result<AcceptedView, RejectionView> {
    match bark_id_check(i.bark_id) {
        Err(e) => Err(RejectionView::BarkId(e)),
        Ok(bark_id) => match i.bark_url {
            None => Err(RejectionView::BarkUrlInvalid),
            Some(bark_url) => if !i.bark_url_allowed {
                Err(RejectionView::BarkUrlNotAllowed)
            } else {
                match locations_check(i.locations, i.coordinates_valid) {
                    Err(e) => Err(RejectionView::Locations(e)),
                    Ok(locations) => match resolve_bands_check(i.earthquake_warning, i.notify_bands) {
                        Err(e) => Err(RejectionView::Bands(e)),
                        Ok(notify_bands) => match i.rules_error {
                            Some(m) => Err(RejectionView::Rules(m)),
                            None => if !sources_acceptable(i.sources) {
                                Err(RejectionView::Sources)
                            } else {
                                Ok(AcceptedView { bark_id, bark_url, locations, notify_bands })
                            },
                        },
                    },
                }
            },
        },
    }
}

/// Runs the checks of a subscribe request, as [`subscribe_screen`] states.
pub fn screen_subscribe_request(input: &SubscribeInput) -> (r: Result<AcceptedSubscription, SubscribeRejection>)
    ensures
        match r {
            Ok(a) => subscribe_screen(input@) == Ok::<AcceptedView, RejectionView>(a@),
            Err(e) => subscribe_screen(input@) == Err::<AcceptedView, RejectionView>(e@),
        },
{
    let bark_id = match validate_bark_id(input.bark_id.as_str()) {
        Ok(id) => id,
        Err(e) => return Err(SubscribeRejection::BarkId(e)),
    };
    let bark_url = match &input.bark_url {
        Some(u) => u.clone(),
        None => return Err(SubscribeRejection::BarkUrlInvalid),
    };
    if !input.bark_url_allowed {
        return Err(SubscribeRejection::BarkUrlNotAllowed);
    }
    let locations = match normalize_locations(&input.locations, input.coordinates_valid) {
        Ok(l) => l,
        Err(e) => return Err(SubscribeRejection::Locations(e)),
    };
    let notify_bands = match resolve_notify_bands(input.earthquake_warning, &input.notify_bands) {
        Ok(b) => b,
        Err(e) => return Err(SubscribeRejection::Bands(e)),
    };
    match &input.rules_error {
        Some(m) => return Err(SubscribeRejection::Rules(m.clone())),
        None => {},
    }
    let sources_ok = valid_source_overrides(&input.sources);
    proof {
        let sv = input@.sources;
        if sources_ok {
            assert forall|i: int| 0 <= i < sv.len() implies is_known_source(#[trigger] sv[i]) by {
                assert(sv[i] == input.sources@[i]@);
                assert(is_known_source(input.sources@[i]@));
            }
        } else if input.sources.len() <= 64 {
            let i = choose|i: int| 0 <= i < input.sources.len() && !is_known_source(#[trigger] input.sources@[i]@);
            assert(sv[i] == input.sources@[i]@);
        }
        assert(sources_ok == sources_acceptable(sv));
    }
    if !sources_ok {
        return Err(SubscribeRejection::Sources);
    }
    Ok(AcceptedSubscription { bark_id, bark_url, locations, notify_bands })
}

/// The answer once the confirmation push has been tried: `None` when it was
/// sent and the subscription is to be stored; otherwise a bad gateway,
/// with the push's error, and nothing is stored.
pub fn confirmation_reply(sent: &Result<(), String>) -> (r: Option<Reply>)
    ensures
        match sent {
            Ok(_) => r is None,
            Err(e) => r matches Some(reply) && reply.status == ReplyStatus::BadGateway
                && reply.message@ == "订阅确认提醒发送失败，订阅未保存: "@ + e@,
        },
{
    match sent {
        Ok(_) => None,
        Err(e) => Some(Reply {
            status: ReplyStatus::BadGateway,
            message: joined("订阅确认提醒发送失败，订阅未保存: ", e.as_str()),
        }),
    }
}

/// The answer once the subscription has been written: success, or an
/// internal error with the store's error.
pub fn subscribe_store_reply(stored: &Result<(), String>) -> (r: Reply)
    ensures
        match stored {
            Ok(_) => r.status == ReplyStatus::Success && r.message@ == "订阅成功"@,
            Err(e) => r.status == ReplyStatus::InternalServerError && r.message@ == "订阅失败: "@ + e@,
        },
{
    match stored {
        Ok(_) => Reply { status: ReplyStatus::Success, message: String::from_str("订阅成功") },
        Err(e) => Reply { status: ReplyStatus::InternalServerError, message: joined("订阅失败: ", e.as_str()) },
    }
}

/// The answer to an unsubscribe request once the store has answered:
/// success, or the store's error, reported as "not found" when its message
/// says the subscription does not exist and as an internal error otherwise.
pub fn unsubscribe_reply(removed: &Result<(), String>) -> (r: Reply)
    ensures
        match removed {
            Ok(_) => r.status == ReplyStatus::Success && r.message@ == "已取消订阅"@,
            Err(e) => r.message@ == "取消订阅失败: "@ + e@ && r.status == (if contains_seq(e@, not_found_message()) {
                ReplyStatus::NotFound
            } else {
                ReplyStatus::InternalServerError
            }),
        },
{
    match removed {
        Ok(_) => Reply { status: ReplyStatus::Success, message: String::from_str("已取消订阅") },
        Err(e) => {
            let status = match classify_error(e.as_str()) {
                StoreErrorKind::NotFound => ReplyStatus::NotFound,
                StoreErrorKind::Internal => ReplyStatus::InternalServerError,
            };
            Reply { status, message: joined("取消订阅失败: ", e.as_str()) }
        },
    }
}

/// The answer to a reverse-geocoding request: refused when the coordinates
/// are invalid; otherwise success with the resolved area, or "unavailable"
/// when resolving failed.
pub fn reverse_geocode_reply(coordinates_valid: bool, resolved: bool) -> (r: Reply)
    ensures
        !coordinates_valid ==> r.status == ReplyStatus::BadRequest && r.message@ == "坐标无效"@,
        coordinates_valid && resolved ==> r.status == ReplyStatus::Success && r.message@ == "区域信息解析成功"@,
        coordinates_valid && !resolved ==> r.status == ReplyStatus::ServiceUnavailable
            && r.message@ == "区域信息暂时无法自动解析，请手动填写"@,
{
    if !coordinates_valid {
        Reply { status: ReplyStatus::BadRequest, message: String::from_str("坐标无效") }
    } else if resolved {
        Reply { status: ReplyStatus::Success, message: String::from_str("区域信息解析成功") }
    } else {
        Reply { status: ReplyStatus::ServiceUnavailable, message: String::from_str("区域信息暂时无法自动解析，请手动填写") }
    }
}

} // verus!

verus! {

/// The answer to a stored subscription.
#[derive(Debug, Clone, Copy, PartialEq, Eq)]
pub struct SubscribeResponse {
    pub saved: bool,
}

impl SubscribeResponse {
    /// The answer once a subscription has been stored.
    pub fn stored() -> (r: Self)
        ensures
            r.saved,
    {
        SubscribeResponse { saved: true }
    }
}

/// The answer of the statistics endpoint.
#[derive(Debug, Clone, Copy, PartialEq, Eq)]
pub struct StatsResponse {
    pub total_subscriptions: usize,
}

/// The answer of the Bark URL endpoint.
#[derive(Debug, Clone)]
pub struct BarkUrlsResponse {
    pub bark_urls: Vec<String>,
}

} // verus!
