//! The field extraction that normalises early-warning messages of unknown
//! sources, on a model of the JSON object that holds what the extraction
//! reads.
use crate::text::{ascii_lower, chars_of, lemma_trim_of_trimmed, str_eq, string_from_chars, trim, trim_ascii_lowercase, trimmed_chars};
use vstd::prelude::*;

pub use crate::models::subscription::{mask_bark_id, normalize_bark_level, validate_bark_level, ApiResponse, NotificationBand, UnsubscribeRequest};

verus! {

broadcast use vstd::string::group_string_axioms;

/// The first field of an early-warning message: its source type.
#[derive(Debug, Clone)]
pub struct WebSocketMessage {
    pub message_type: String,
}

/// The documented early-warning sources.
#[derive(Debug, Clone, Copy, PartialEq, Eq, Structural)]
pub enum EewSource {
    Jma,
    Sichuan,
    Cenc,
    Fujian,
    Chongqing,
    Unknown,
}

/// The source that a message type names.
pub open spec fn eew_source_spec(t: Seq<char>) -> EewSource {
    if t == "jma_eew"@ {
        EewSource::Jma
    } else if t == "sc_eew"@ {
        EewSource::Sichuan
    } else if t == "cenc_eew"@ {
        EewSource::Cenc
    } else if t == "fj_eew"@ {
        EewSource::Fujian
    } else if t == "cq_eew"@ {
        EewSource::Chongqing
    } else {
        EewSource::Unknown
    }
}

/// The source that the message type `t` names.
pub fn eew_source(t: &str) -> (s: EewSource)
    ensures
        s == eew_source_spec(t@),
{
    if str_eq(t, "jma_eew") {
        EewSource::Jma
    } else if str_eq(t, "sc_eew") {
        EewSource::Sichuan
    } else if str_eq(t, "cenc_eew") {
        EewSource::Cenc
    } else if str_eq(t, "fj_eew") {
        EewSource::Fujian
    } else if str_eq(t, "cq_eew") {
        EewSource::Chongqing
    } else {
        EewSource::Unknown
    }
}

/// A JSON value as far as the extraction reads it: numbers are told apart
/// by whether they are non-negative integers, negative integers or neither.
#[derive(Debug, Clone)]
pub enum JsonScalar {
    Null,
    Bool(bool),
    UInt(u64),
    NegInt(i64),
    Float,
    Str(String),
    Composite,
}

/// The mathematical content of a [`JsonScalar`].
pub enum ScalarView {
    Null,
    Bool(bool),
    UInt(u64),
    NegInt(i64),
    Float,
    Str(Seq<char>),
    Composite,
}

impl View for JsonScalar {
    type V = ScalarView;

    open spec fn view(&self) -> ScalarView {
        match self {
            JsonScalar::Null => ScalarView::Null,
            JsonScalar::Bool(b) => ScalarView::Bool(*b),
            JsonScalar::UInt(u) => ScalarView::UInt(*u),
            JsonScalar::NegInt(i) => ScalarView::NegInt(*i),
            JsonScalar::Float => ScalarView::Float,
            JsonScalar::Str(s) => ScalarView::Str(s@),
            JsonScalar::Composite => ScalarView::Composite,
        }
    }
}

/// One member of a JSON object.
#[derive(Debug, Clone)]
pub struct JsonField {
    pub name: String,
    pub value: JsonScalar,
}

/// The mathematical content of a [`JsonField`].
pub struct FieldView {
    pub name: Seq<char>,
    pub value: ScalarView,
}

impl View for JsonField {
    type V = FieldView;

    open spec fn view(&self) -> FieldView {
        FieldView { name: self.name@, value: self.value@ }
    }
}

/// The views of the members of an object.
pub open spec fn fields_view(v: Seq<JsonField>) -> Seq<FieldView> {
    v.map_values(|f: JsonField| f@)
}

/// The value of the first member named `k`.
pub open spec fn get_in(fields: Seq<FieldView>, k: Seq<char>) -> Option<ScalarView>
    decreases fields.len(),
{
    if fields.len() == 0 {
        None
    } else if fields[0].name == k {
        Some(fields[0].value)
    } else {
        get_in(fields.drop_first(), k)
    }
}

/// The value of the first of `keys` that the object has.
pub open spec fn first_present(fields: Seq<FieldView>, keys: Seq<Seq<char>>) -> Option<ScalarView>
    decreases keys.len(),
{
    if keys.len() == 0 {
        None
    } else {
        match get_in(fields, keys[0]) {
            Some(v) => Some(v),
            None => first_present(fields, keys.drop_first()),
        }
    }
}

/// The value of the decimal digits `d`.
pub open spec fn digits_value(d: Seq<char>) -> nat
    decreases d.len(),
{
    if d.len() == 0 {
        0
    } else {
        digits_value(d.drop_last()) * 10 + ((d.last() as u32) - ('0' as u32)) as nat
    }
}

/// Whether every character of `d` is an ASCII digit.
pub open spec fn all_digits(d: Seq<char>) -> bool {
    forall|i: int| 0 <= i < d.len() ==> '0' <= #[trigger] d[i] <= '9'
}

/// What `u32::from_str` gives for `s`: an optional `+` and then at least
/// one ASCII digit, with a value that fits.
pub open spec fn parse_u32_spec(s: Seq<char>) -> Option<u32> {
    let d = if s.len() > 0 && s[0] == '+' {
        s.drop_first()
    } else {
        s
    };
    if d.len() > 0 && all_digits(d) && digits_value(d) <= u32::MAX {
        Some(digits_value(d) as u32)
    } else {
        None
    }
}

/// The number a value stands for as a `u32`: a small enough non-negative
/// integer, or a string holding one.
pub open spec fn as_u32_spec(v: ScalarView) -> Option<u32> {
    match v {
        ScalarView::UInt(u) => if u <= u32::MAX {
            Some(u as u32)
        } else {
            None
        },
        ScalarView::Str(s) => parse_u32_spec(trim(s)),
        _ => None,
    }
}

/// The flag a value stands for: a boolean, or a string that reads `1`,
/// `true` or `yes` in any ASCII case once trimmed.
pub open spec fn as_bool_spec(v: ScalarView) -> Option<bool> {
    match v {
        ScalarView::Bool(b) => Some(b),
        ScalarView::Str(s) => {
            let t = ascii_lower(trim(s));
            Some(t == "1"@ || t == "true"@ || t == "yes"@)
        },
        _ => None,
    }
}

/// The decimal digits of `n`.
pub open spec fn decimal_nat(n: nat) -> Seq<char>
    decreases n,
{
    if n < 10 {
        seq![(('0' as u32) + n) as char]
    } else {
        decimal_nat(n / 10).push((('0' as u32) + n % 10) as char)
    }
}

/// The decimal form of `i`, as `i64::to_string` writes it.
pub open spec fn decimal_int(i: int) -> Seq<char> {
    if i < 0 {
        seq!['-'] + decimal_nat((-i) as nat)
    } else {
        decimal_nat(i as nat)
    }
}

/// The intensity text of a value: a string as it is, an integer that fits
/// an `i64` in decimal, anything else unknown.
pub open spec fn intensity_text_spec(v: Option<ScalarView>) -> Seq<char> {
    match v {
        Some(ScalarView::Str(s)) => s,
        Some(ScalarView::UInt(u)) => if u <= i64::MAX {
            decimal_int(u as int)
        } else {
            "未知"@
        },
        Some(ScalarView::NegInt(i)) => decimal_int(i as int),
        _ => "未知"@,
    }
}

/// How a value reads as a flag: a boolean is itself; a string reads as
/// true when, trimmed and ASCII lower-cased, it is `1`, `true` or `yes`,
/// and as false when it is anything else; other values are no flag.
pub proof fn lemma_flag_reading(v: ScalarView)
    ensures
        v matches ScalarView::Bool(b) ==> as_bool_spec(v) == Some(b),
        v matches ScalarView::Str(s) ==> {
            let t = ascii_lower(trim(s));
            &&& (t == "1"@ || t == "true"@ || t == "yes"@) ==> as_bool_spec(v) == Some(true)
            &&& !(t == "1"@ || t == "true"@ || t == "yes"@) ==> as_bool_spec(v) == Some(false)
        },
        !(v is Bool || v is Str) ==> as_bool_spec(v) is None,
{
}

/// The decimal digits of `n` are digits, start with a non-zero digit
/// unless `n` is zero, and have the value `n`.
pub proof fn lemma_decimal_digits(n: nat)
    ensures
        decimal_nat(n).len() > 0,
        all_digits(decimal_nat(n)),
        digits_value(decimal_nat(n)) == n,
        n > 0 ==> decimal_nat(n)[0] != '0',
    decreases n,
{
    if n >= 10 {
        let d = decimal_nat(n / 10);
        lemma_decimal_digits(n / 10);
        let c = (('0' as u32) + n % 10) as char;
        let r = d.push(c);
        assert(r.drop_last() == d);
        assert(r.last() == c);
        assert forall|i: int| 0 <= i < r.len() implies '0' <= #[trigger] r[i] <= '9' by {
            if i < d.len() {
                assert(r[i] == d[i]);
            }
        }
        assert(r[0] == d[0]);
        assert((c as u32) == ('0' as u32) + n % 10);
        assert(n == (n / 10) * 10 + n % 10);
        assert(digits_value(r) == digits_value(d) * 10 + ((c as u32) - ('0' as u32)) as nat);
    } else {
        let c = (('0' as u32) + n) as char;
        let r = decimal_nat(n);
        assert(r == seq![c]);
        assert((c as u32) == ('0' as u32) + n);
        assert(r.drop_last() == Seq::<char>::empty());
        assert(r.last() == c);
        assert(digits_value(r) == digits_value(Seq::<char>::empty()) * 10 + ((c as u32) - ('0' as u32)) as nat);
    }
}

/// Reading back the decimal form of a number that fits a `u32` gives that
/// number, also with a leading `+`; a string holding it, like the number
/// itself, reads as that report number.
pub proof fn lemma_decimal_reads_back(n: u32)
    ensures
        parse_u32_spec(decimal_nat(n as nat)) == Some(n),
        parse_u32_spec(seq!['+'] + decimal_nat(n as nat)) == Some(n),
        as_u32_spec(ScalarView::Str(decimal_nat(n as nat))) == Some(n),
        as_u32_spec(ScalarView::UInt(n as u64)) == Some(n),
{
    let d = decimal_nat(n as nat);
    lemma_decimal_digits(n as nat);
    assert('0' <= d[0] <= '9');
    assert((seq!['+'] + d).drop_first() == d);
    lemma_trim_of_trimmed(d);
}

/// The intensity text of an unknown-source message: a string member is
/// taken as it is; a non-negative integer that fits an `i64` is written as
/// the decimal digits of its value, a negative one as `-` and the digits
/// of its magnitude; a missing member or any other value is `未知`.
pub proof fn lemma_intensity_text(v: Option<ScalarView>)
    ensures
        v matches Some(ScalarView::Str(s)) ==> intensity_text_spec(v) == s,
        v matches Some(ScalarView::UInt(u)) ==> (u <= i64::MAX ==> {
            let t = intensity_text_spec(v);
            &&& all_digits(t)
            &&& digits_value(t) == u
            &&& t.len() > 0
            &&& (u > 0 ==> t[0] != '0')
        }) && (u > i64::MAX ==> intensity_text_spec(v) == "未知"@),
        v matches Some(ScalarView::NegInt(i)) ==> (i < 0 ==> {
            let t = intensity_text_spec(v);
            &&& t.len() > 1
            &&& t[0] == '-'
            &&& all_digits(t.drop_first())
            &&& digits_value(t.drop_first()) == -i
            &&& t[1] != '0'
        }),
        !(v matches Some(ScalarView::Str(_)) || v matches Some(ScalarView::UInt(_)) || v matches Some(ScalarView::NegInt(_)))
            ==> intensity_text_spec(v) == "未知"@,
{
    match v {
        Some(ScalarView::UInt(u)) => {
            lemma_decimal_digits(u as nat);
        },
        Some(ScalarView::NegInt(i)) => {
            if i < 0 {
                let m = (-i) as nat;
                lemma_decimal_digits(m);
                let t = intensity_text_spec(v);
                assert(t == seq!['-'] + decimal_nat(m));
                assert(t.drop_first() == decimal_nat(m));
                assert(t[1] == decimal_nat(m)[0]);
            }
        },
        _ => {},
    }
}

/// The text of a value that is a string, empty otherwise.
pub open spec fn text_spec(v: Option<ScalarView>) -> Seq<char> {
    match v {
        Some(ScalarView::Str(s)) => s,
        _ => seq![],
    }
}

/// The value of the first member named `key`.
pub fn json_get<'a>(fields: &'a Vec<JsonField>, key: &str) -> (r: Option<&'a JsonScalar>)
    ensures
        match r {
            Some(v) => get_in(fields_view(fields@), key@) == Some(v@),
            None => get_in(fields_view(fields@), key@) is None,
        },
{
    let ghost fv = fields_view(fields@);
    let mut i: usize = 0;
    assert(fv.skip(0) == fv);
    while i < fields.len()
        invariant
            fv == fields_view(fields@),
            i <= fields.len(),
            get_in(fv, key@) == get_in(fv.skip(i as int), key@),
        decreases fields.len() - i,
    {
        let ghost rest = fv.skip(i as int);
        assert(rest[0] == fields@[i as int]@);
        assert(rest.drop_first() == fv.skip(i + 1));
        if str_eq(fields[i].name.as_str(), key) {
            return Some(&fields[i].value);
        }
        i += 1;
    }
    assert(fv.skip(fields.len() as int).len() == 0);
    None
}

/// The value of the first of `keys` that the object has.
pub fn json_first<'a>(fields: &'a Vec<JsonField>, keys: &Vec<&str>) -> (r: Option<&'a JsonScalar>)
    ensures
        match r {
            Some(v) => first_present(fields_view(fields@), keys@.map_values(|k: &str| k@)) == Some(v@),
            None => first_present(fields_view(fields@), keys@.map_values(|k: &str| k@)) is None,
        },
{
    let ghost kv = keys@.map_values(|k: &str| k@);
    let ghost fv = fields_view(fields@);
    let mut i: usize = 0;
    assert(kv.skip(0) == kv);
    while i < keys.len()
        invariant
            kv == keys@.map_values(|k: &str| k@),
            fv == fields_view(fields@),
            i <= keys.len(),
            first_present(fv, kv) == first_present(fv, kv.skip(i as int)),
        decreases keys.len() - i,
    {
        let ghost rest = kv.skip(i as int);
        assert(rest[0] == keys@[i as int]@);
        assert(rest.drop_first() == kv.skip(i + 1));
        match json_get(fields, keys[i]) {
            Some(v) => {
                return Some(v);
            },
            None => {},
        }
        i += 1;
    }
    assert(kv.skip(keys.len() as int).len() == 0);
    None
}

/// `u32::from_str` on `s`, as [`parse_u32_spec`] states it.
pub fn parse_u32(s: &Vec<char>) -> (r: Option<u32>)
    ensures
        r == parse_u32_spec(s@),
{
    let start: usize = if s.len() > 0 && s[0] == '+' {
        1
    } else {
        0
    };
    let ghost d = s@.skip(start as int);
    assert(d == if s@.len() > 0 && s@[0] == '+' { s@.drop_first() } else { s@ });
    if start == s.len() {
        return None;
    }
    let mut value: u64 = 0;
    let mut i: usize = start;
    while i < s.len()
        invariant
            start <= i <= s.len(),
            start < s.len(),
            d == s@.skip(start as int),
            d == if s@.len() > 0 && s@[0] == '+' { s@.drop_first() } else { s@ },
            value == digits_value(d.take(i - start)),
            value <= u32::MAX,
            all_digits(d.take(i - start)),
        decreases s.len() - i,
    {
        let c = s[i];
        proof {
            assert(d.take(i - start + 1).drop_last() == d.take(i - start));
            assert(d.take(i - start + 1).last() == c);
        }
        if !('0' <= c && c <= '9') {
            proof {
                assert(d[i - start] == c);
                assert(!all_digits(d));
            }
            return None;
        }
        let digit = (c as u32 - '0' as u32) as u64;
        let next = value * 10 + digit;
        assert(next == digits_value(d.take(i - start + 1)));
        proof {
            assert(all_digits(d.take(i - start + 1))) by {
                assert forall|k: int| 0 <= k < i - start + 1 implies '0' <= #[trigger] d.take(i - start + 1)[k] <= '9' by {
                    if k < i - start {
                        assert(d.take(i - start + 1)[k] == d.take(i - start)[k]);
                    }
                }
            }
        }
        if next > u32::MAX as u64 {
            proof {
                lemma_prefix_value_bound(d, i - start + 1);
            }
            return None;
        }
        value = next;
        i += 1;
    }
    proof {
        assert(d.take(s.len() - start) == d);
    }
    Some(value as u32)
}

proof fn lemma_prefix_value_bound(d: Seq<char>, k: int)
    requires
        0 < k <= d.len(),
        all_digits(d.take(k)),
    ensures
        all_digits(d) ==> digits_value(d.take(k)) <= digits_value(d),
    decreases d.len() - k,
{
    if k < d.len() && all_digits(d) {
        let p = d.drop_last();
        assert(p.take(k) == d.take(k));
        assert(all_digits(p)) by {
            assert forall|i: int| 0 <= i < p.len() implies '0' <= #[trigger] p[i] <= '9' by {
                assert(p[i] == d[i]);
            }
        }
        lemma_prefix_value_bound(p, k);
        assert(d[d.len() - 1] == d.last());
        assert(digits_value(p) <= digits_value(d)) by (nonlinear_arith)
            requires
                digits_value(d) == digits_value(p) * 10 + ((d.last() as u32) - ('0' as u32)) as nat;
    } else if k == d.len() {
        assert(d.take(k) == d);
    }
}

/// The report number of an unknown-source message: the first present of
/// `keys` read as a `u32`, or 0.
pub fn json_u32(fields: &Vec<JsonField>, keys: &Vec<&str>) -> (n: u32)
    ensures
        n == match first_present(fields_view(fields@), keys@.map_values(|k: &str| k@)) {
            Some(v) => match as_u32_spec(v) {
                Some(x) => x,
                None => 0u32,
            },
            None => 0u32,
        },
{
    match json_first(fields, keys) {
        Some(JsonScalar::UInt(u)) => {
            if *u <= u32::MAX as u64 {
                *u as u32
            } else {
                0
            }
        },
        Some(JsonScalar::Str(s)) => {
            let t = trimmed_chars(s.as_str());
            match parse_u32(&t) {
                Some(x) => x,
                None => 0,
            }
        },
        _ => 0,
    }
}

/// A flag of an unknown-source message: the first present of `keys` read
/// as a flag, or false.
pub fn json_bool(fields: &Vec<JsonField>, keys: &Vec<&str>) -> (b: bool)
    ensures
        b == match first_present(fields_view(fields@), keys@.map_values(|k: &str| k@)) {
            Some(v) => match as_bool_spec(v) {
                Some(x) => x,
                None => false,
            },
            None => false,
        },
{
    match json_first(fields, keys) {
        Some(JsonScalar::Bool(b)) => *b,
        Some(JsonScalar::Str(s)) => {
            let t = trim_ascii_lowercase(s.as_str());
            str_eq(t.as_str(), "1") || str_eq(t.as_str(), "true") || str_eq(t.as_str(), "yes")
        },
        _ => false,
    }
}

/// The text of the first present of `keys` when it is a string, empty
/// otherwise.
pub fn json_text(fields: &Vec<JsonField>, keys: &Vec<&str>) -> (t: String)
    ensures
        t@ == text_spec(first_present(fields_view(fields@), keys@.map_values(|k: &str| k@))),
{
    match json_first(fields, keys) {
        Some(JsonScalar::Str(s)) => s.clone(),
        _ => String::new(),
    }
}

/// The decimal digits of `n`, as `u64::to_string` writes them.
fn decimal_u64(n: u64) -> (v: Vec<char>)
    ensures
        v@ == decimal_nat(n as nat),
    decreases n,
{
    let digit = ((n % 10) as u8 + 0x30u8) as char;
    if n < 10 {
        vec![digit]
    } else {
        let mut v = decimal_u64(n / 10);
        v.push(digit);
        v
    }
}

/// The decimal form of `i` (`i64::to_string`).
pub fn decimal_i64(i: i64) -> (s: String)
    ensures
        s@ == decimal_int(i as int),
{
    if i < 0 {
        let magnitude: u64 = if i == i64::MIN {
            0x8000_0000_0000_0000u64
        } else {
            (-i) as u64
        };
        let digits = decimal_u64(magnitude);
        let mut v: Vec<char> = vec!['-'];
        let mut k: usize = 0;
        while k < digits.len()
            invariant
                k <= digits.len(),
                v@ == seq!['-'] + digits@.take(k as int),
            decreases digits.len() - k,
        {
            v.push(digits[k]);
            assert(digits@.take(k + 1) == digits@.take(k as int).push(digits@[k as int]));
            k += 1;
        }
        assert(digits@.take(digits.len() as int) == digits@);
        string_from_chars(&v)
    } else {
        let digits = decimal_u64(i as u64);
        string_from_chars(&digits)
    }
}

/// The maximum intensity of an unknown-source message as text.
pub fn json_intensity_text(fields: &Vec<JsonField>) -> (t: String)
    ensures
        t@ == intensity_text_spec(get_in(fields_view(fields@), "MaxIntensity"@)),
{
    match json_get(fields, "MaxIntensity") {
        Some(JsonScalar::Str(s)) => s.clone(),
        Some(JsonScalar::UInt(u)) => {
            if *u <= i64::MAX as u64 {
                decimal_i64(*u as i64)
            } else {
                String::from_str("未知")
            }
        },
        Some(JsonScalar::NegInt(i)) => decimal_i64(*i),
        _ => String::from_str("未知"),
    }
}

/// The fields of an unknown-source message that do not hold coordinates or
/// magnitudes.
#[derive(Debug, Clone)]
pub struct UnknownEventFields {
    pub event_id: String,
    pub report_num: u32,
    pub final_report: bool,
    pub cancel: bool,
    pub training: bool,
    pub max_intensity: String,
    pub region: String,
    pub origin_time: String,
}

/// The identification, flags and texts of an unknown-source message, each
/// taken from the first of its documented field names that is present.
pub fn unknown_source_fields(fields: &Vec<JsonField>) -> (r: UnknownEventFields)
    ensures
            r.report_num == match first_present(fields_view(fields@), seq!["ReportNum"@, "Serial"@]) {
                Some(v) => match as_u32_spec(v) {
                    Some(x) => x,
                    None => 0u32,
                },
                None => 0u32,
            },
            r.final_report == match first_present(fields_view(fields@), seq!["isFinal"@, "Final"@]) {
                Some(v) => match as_bool_spec(v) {
                    Some(x) => x,
                    None => false,
                },
                None => false,
            },
            r.cancel == match first_present(fields_view(fields@), seq!["Cancel"@, "isCancel"@]) {
                Some(v) => match as_bool_spec(v) {
                    Some(x) => x,
                    None => false,
                },
                None => false,
            },
            r.training == match first_present(fields_view(fields@), seq!["isTraining"@, "is_training"@, "Training"@]) {
                Some(v) => match as_bool_spec(v) {
                    Some(x) => x,
                    None => false,
                },
                None => false,
            },
            r.region@ == text_spec(first_present(fields_view(fields@), seq!["HypoCenter"@, "Hypocenter"@])),
            r.origin_time@ == text_spec(first_present(fields_view(fields@), seq!["OriginTime"@])),
            r.event_id@ == text_spec(first_present(fields_view(fields@), seq!["EventID"@])),
            r.max_intensity@ == intensity_text_spec(get_in(fields_view(fields@), "MaxIntensity"@)),
{
    let report_num_keys: Vec<&str> = vec!["ReportNum", "Serial"];
    assert(report_num_keys@.map_values(|k: &str| k@) =~= seq!["ReportNum"@, "Serial"@]);
    let final_report_keys: Vec<&str> = vec!["isFinal", "Final"];
    assert(final_report_keys@.map_values(|k: &str| k@) =~= seq!["isFinal"@, "Final"@]);
    let cancel_keys: Vec<&str> = vec!["Cancel", "isCancel"];
    assert(cancel_keys@.map_values(|k: &str| k@) =~= seq!["Cancel"@, "isCancel"@]);
    let training_keys: Vec<&str> = vec!["isTraining", "is_training", "Training"];
    assert(training_keys@.map_values(|k: &str| k@) =~= seq!["isTraining"@, "is_training"@, "Training"@]);
    let region_keys: Vec<&str> = vec!["HypoCenter", "Hypocenter"];
    assert(region_keys@.map_values(|k: &str| k@) =~= seq!["HypoCenter"@, "Hypocenter"@]);
    let origin_time_keys: Vec<&str> = vec!["OriginTime"];
    assert(origin_time_keys@.map_values(|k: &str| k@) =~= seq!["OriginTime"@]);
    let event_id_keys: Vec<&str> = vec!["EventID"];
    assert(event_id_keys@.map_values(|k: &str| k@) =~= seq!["EventID"@]);
    UnknownEventFields {
        event_id: json_text(fields, &event_id_keys),
        report_num: json_u32(fields, &report_num_keys),
        final_report: json_bool(fields, &final_report_keys),
        cancel: json_bool(fields, &cancel_keys),
        training: json_bool(fields, &training_keys),
        max_intensity: json_intensity_text(fields),
        region: json_text(fields, &region_keys),
        origin_time: json_text(fields, &origin_time_keys),
    }
}

} // verus!
