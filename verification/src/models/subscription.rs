use crate::text::{ascii_lower, lemma_trim_of_trimmed, string_from_chars, string_from_range, trim, trim_ascii_lowercase, trimmed_chars, str_eq};
use vstd::prelude::*;

verus! {

/// One notification rule: estimated intensities `min..=max` are pushed with
/// the Bark `level`.
#[derive(Debug, Clone)]
pub struct NotificationBand {
    pub min: u8,
    pub max: u8,
    pub level: String,
    pub label: String,
}

/// The mathematical content of a [`NotificationBand`].
pub struct BandView {
    pub min: u8,
    pub max: u8,
    pub level: Seq<char>,
    pub label: Seq<char>,
}

impl View for NotificationBand {
    type V = BandView;

    open spec fn view(&self) -> BandView {
        BandView { min: self.min, max: self.max, level: self.level@, label: self.label@ }
    }
}

/// The views of a sequence of bands.
pub open spec fn bands_view(v: Seq<NotificationBand>) -> Seq<BandView> {
    v.map_values(|b: NotificationBand| b@)
}

/// A copy of `b` with the same content.
pub fn copy_band(b: &NotificationBand) -> (r: NotificationBand)
    ensures
        r@ == b@,
{
    NotificationBand { min: b.min, max: b.max, level: b.level.clone(), label: b.label.clone() }
}

/// The Bark levels that a notification may carry.
pub open spec fn is_valid_level(s: Seq<char>) -> bool {
    s == "passive"@ || s == "active"@ || s == "critical"@
}

/// A level as it is stored: trimmed and ASCII lower-case.
pub open spec fn normalized_level(s: Seq<char>) -> Seq<char> {
    ascii_lower(trim(s))
}

/// A Bark level is its own normalised form: normalising a valid level
/// leaves it unchanged.
pub proof fn lemma_valid_level_is_normalized(s: Seq<char>)
    ensures
        is_valid_level(s) ==> normalized_level(s) == s,
{
    if is_valid_level(s) {
        reveal_strlit("passive");
        reveal_strlit("active");
        reveal_strlit("critical");
        lemma_trim_of_trimmed(s);
        assert(ascii_lower(s) =~= s);
    }
}

/// The message given when a band carries an unknown level.
pub open spec fn invalid_level_message() -> Seq<char> {
    "通知级别必须是 passive、active 或 critical"@
}

pub fn normalize_bark_level(level: &str) -> (r: String)
    ensures
        r@ == normalized_level(level@),
{
    trim_ascii_lowercase(level)
}

pub fn validate_bark_level(level: &str) -> (b: bool)
    ensures
        b == is_valid_level(level@),
{
    str_eq(level, "passive") || str_eq(level, "active") || str_eq(level, "critical")
}

/// The masked form of a Bark ID used in logs: the trimmed ID when it has
/// more than six characters keeps its first and last three, otherwise
/// nothing of it is shown.
pub open spec fn masked_id(s: Seq<char>) -> Seq<char> {
    let t = trim(s);
    if t.len() <= 6 {
        "***"@
    } else {
        t.take(3) + "***"@ + t.skip(t.len() - 3)
    }
}

pub fn mask_bark_id(value: &str) -> (r: String)
    ensures
        r@ == masked_id(value@),
{
    let chars = trimmed_chars(value);
    let n = chars.len();
    if n <= 6 {
        String::from_str("***")
    } else {
        let mut r = string_from_range(&chars, 0, 3);
        r.append("***");
        let suffix = string_from_range(&chars, n - 3, n);
        r.append(suffix.as_str());
        assert(chars@.subrange(0, 3) == chars@.take(3));
        assert(chars@.subrange(n - 3, n as int) == chars@.skip(n - 3));
        r
    }
}

/// Whether band `b` applies to intensity `x`.
pub open spec fn band_matches(b: BandView, x: u8) -> bool {
    is_valid_level(b.level) && b.min <= x && x <= b.max
}

/// `i` is the band chosen for intensity `x`: it applies, no applying band
/// has a smaller `min`, and no earlier applying band has the same `min`.
pub open spec fn is_selected_band(bands: Seq<BandView>, x: u8, i: int) -> bool {
    &&& 0 <= i < bands.len()
    &&& band_matches(bands[i], x)
    &&& forall|j: int| 0 <= j < bands.len() && band_matches(bands[j], x) ==> bands[i].min <= bands[j].min
    &&& forall|j: int| 0 <= j < i && band_matches(bands[j], x) ==> bands[i].min < bands[j].min
}

/// The index of the band that decides the level for intensity `x`: among
/// the bands with a valid level whose range holds `x`, the first one with
/// the lowest `min`.
pub fn selected_band(bands: &Vec<NotificationBand>, x: u8) -> (r: Option<usize>)
    ensures
        r is None <==> forall|j: int| 0 <= j < bands.len() ==> !band_matches(#[trigger] bands@[j]@, x),
        r matches Some(i) ==> is_selected_band(bands_view(bands@), x, i as int),
{
    let mut selected: Option<usize> = None;
    let mut i: usize = 0;
    while i < bands.len()
        invariant
            i <= bands.len(),
            selected is None <==> forall|j: int| 0 <= j < i ==> !band_matches(#[trigger] bands@[j]@, x),
            selected matches Some(s) ==> {
                &&& s < i
                &&& band_matches(bands@[s as int]@, x)
                &&& forall|j: int| 0 <= j < i && band_matches(#[trigger] bands@[j]@, x) ==> bands@[s as int].min <= bands@[j].min
                &&& forall|j: int| 0 <= j < s && band_matches(#[trigger] bands@[j]@, x) ==> bands@[s as int].min < bands@[j].min
            },
        decreases bands.len() - i,
    {
        let band = &bands[i];
        let applies = validate_bark_level(band.level.as_str()) && x >= band.min && x <= band.max;
        assert(applies == band_matches(bands@[i as int]@, x));
        if applies {
            let better = match selected {
                None => true,
                Some(s) => band.min < bands[s].min,
            };
            if better {
                selected = Some(i);
            }
        }
        i += 1;
    }
    proof {
        if let Some(s) = selected {
            let bv = bands_view(bands@);
            assert forall|j: int| 0 <= j < bv.len() && band_matches(bv[j], x) implies bv[s as int].min <= bv[j].min by {
                assert(bv[j] == bands@[j]@);
            }
            assert forall|j: int| 0 <= j < s && band_matches(bv[j], x) implies bv[s as int].min < bv[j].min by {
                assert(bv[j] == bands@[j]@);
            }
        }
    }
    selected
}

/// The Bark level to push for intensity `x`: the level of the band that
/// [`selected_band`] picks, or `None` when no band applies.
pub fn level_for_intensity(bands: &Vec<NotificationBand>, x: u8) -> (r: Option<&str>)
    ensures
        r is None <==> forall|j: int| 0 <= j < bands.len() ==> !band_matches(#[trigger] bands@[j]@, x),
        r matches Some(level) ==> exists|i: int| is_selected_band(bands_view(bands@), x, i) && level@ == bands@[i].level@,
{
    match selected_band(bands, x) {
        None => None,
        Some(i) => {
            let level = bands[i].level.as_str();
            assert(is_selected_band(bands_view(bands@), x, i as int));
            Some(level)
        },
    }
}

/// `b` with its level stored in normalised form.
pub open spec fn band_normalized(b: BandView) -> BandView {
    BandView { level: normalized_level(b.level), ..b }
}

/// Normalises the level of every band, in order, and stops at the first band
/// whose normalised level is not one of the Bark levels: that band is
/// normalised too, those after it are left as they were.
pub fn normalize_bands_for_storage(bands: &mut Vec<NotificationBand>) -> (r: Result<(), String>)
    ensures
        final(bands).len() == old(bands).len(),
        r is Ok <==> forall|j: int| 0 <= j < old(bands).len() ==> is_valid_level(normalized_level(#[trigger] old(bands)@[j].level@)),
        r is Ok ==> forall|j: int| 0 <= j < old(bands).len() ==> #[trigger] final(bands)@[j]@ == band_normalized(old(bands)@[j]@),
        r matches Err(m) ==> {
            &&& m@ == invalid_level_message()
            &&& exists|k: int| {
                &&& 0 <= k < old(bands).len()
                &&& !is_valid_level(normalized_level(old(bands)@[k].level@))
                &&& forall|j: int| 0 <= j < k ==> is_valid_level(normalized_level(#[trigger] old(bands)@[j].level@))
                &&& forall|j: int| 0 <= j <= k ==> #[trigger] final(bands)@[j]@ == band_normalized(old(bands)@[j]@)
                &&& forall|j: int| k < j < old(bands).len() ==> #[trigger] final(bands)@[j] == old(bands)@[j]
            }
        },
{
    let ghost orig = bands@;
    let mut i: usize = 0;
    while i < bands.len()
        invariant
            orig == old(bands)@,
            bands.len() == orig.len(),
            i <= bands.len(),
            forall|j: int| 0 <= j < i ==> is_valid_level(normalized_level(#[trigger] orig[j].level@)),
            forall|j: int| 0 <= j < i ==> #[trigger] bands@[j]@ == band_normalized(orig[j]@),
            forall|j: int| i <= j < orig.len() ==> #[trigger] bands@[j] == orig[j],
        decreases bands.len() - i,
    {
        let mut b = copy_band(&bands[i]);
        b.level = normalize_bark_level(bands[i].level.as_str());
        let ok = validate_bark_level(b.level.as_str());
        bands.set(i, b);
        if !ok {
            assert(forall|j: int| 0 <= j <= i ==> #[trigger] bands@[j]@ == band_normalized(orig[j]@));
            assert(!is_valid_level(normalized_level(orig[i as int].level@)));
            return Err(String::from_str("通知级别必须是 passive、active 或 critical"));
        }
        i += 1;
    }
    Ok(())
}

/// The envelope of every JSON answer of the HTTP API.
#[derive(Debug)]
pub struct ApiResponse<T> {
    pub success: bool,
    pub message: String,
    pub data: Option<T>,
}

impl<T> ApiResponse<T> {
    pub fn success(message: String, data: Option<T>) -> (r: Self)
        ensures
            r.success,
            r.message@ == message@,
            r.data == data,
    {
        ApiResponse { success: true, message, data }
    }

    pub fn error(message: String) -> (r: Self)
        ensures
            !r.success,
            r.message@ == message@,
            r.data is None,
    {
        ApiResponse { success: false, message, data: None }
    }
}

/// The body of an unsubscribe request.
#[derive(Debug)]
pub struct UnsubscribeRequest {
    pub bark_id: String,
}

} // verus!
