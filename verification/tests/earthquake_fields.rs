use disaster_alert::backend::models::{
    decimal_i64, eew_source, json_bool, json_u32, parse_u32, unknown_source_fields, EewSource, JsonField,
    JsonScalar,
};

fn field(name: &str, value: JsonScalar) -> JsonField {
    JsonField { name: name.to_string(), value }
}

fn text(value: &str) -> JsonScalar {
    JsonScalar::Str(value.to_string())
}

#[test]
fn message_types_select_documented_sources() {
    assert_eq!(eew_source("jma_eew"), EewSource::Jma);
    assert_eq!(eew_source("sc_eew"), EewSource::Sichuan);
    assert_eq!(eew_source("cenc_eew"), EewSource::Cenc);
    assert_eq!(eew_source("fj_eew"), EewSource::Fujian);
    assert_eq!(eew_source("cq_eew"), EewSource::Chongqing);
    assert_eq!(eew_source("future_eew"), EewSource::Unknown);
}

#[test]
fn future_source_fields_follow_documented_shapes() {
    let fields = vec![
        field("type", text("future_eew")),
        field("EventID", text("future-1")),
        field("ReportNum", text("4")),
        field("OriginTime", text("2026-07-10 01:21:43")),
        field("HypoCenter", text("测试震源")),
        field("Latitude", text("25.5")),
        field("Depth", JsonScalar::Null),
        field("MaxIntensity", JsonScalar::UInt(3)),
        field("isTraining", JsonScalar::Bool(true)),
    ];
    let info = unknown_source_fields(&fields);
    assert_eq!(info.event_id, "future-1");
    assert_eq!(info.report_num, 4);
    assert_eq!(info.max_intensity, "3");
    assert_eq!(info.region, "测试震源");
    assert_eq!(info.origin_time, "2026-07-10 01:21:43");
    assert!(info.training);
    assert!(!info.final_report);
    assert!(!info.cancel);
}

#[test]
fn missing_or_odd_fields_fall_back() {
    let fields = vec![
        field("Serial", JsonScalar::UInt(5_000_000_000)),
        field("Hypocenter", JsonScalar::UInt(1)),
        field("MaxIntensity", JsonScalar::Float),
        field("Cancel", text(" YES ")),
        field("Final", text("no")),
    ];
    let info = unknown_source_fields(&fields);
    assert_eq!(info.report_num, 0);
    assert_eq!(info.region, "");
    assert_eq!(info.event_id, "");
    assert_eq!(info.max_intensity, "未知");
    assert!(info.cancel);
    assert!(!info.final_report);
    let negative = vec![field("MaxIntensity", JsonScalar::NegInt(-12))];
    assert_eq!(unknown_source_fields(&negative).max_intensity, "-12");
}

#[test]
fn the_first_present_key_decides() {
    let fields = vec![field("isCancel", JsonScalar::Bool(true)), field("Cancel", JsonScalar::Null)];
    assert!(!json_bool(&fields, &vec!["Cancel", "isCancel"]));
    assert!(json_bool(&fields, &vec!["isCancel", "Cancel"]));
    let fields = vec![field("Serial", text(" +17 ")), field("ReportNum", JsonScalar::Composite)];
    assert_eq!(json_u32(&fields, &vec!["ReportNum", "Serial"]), 0);
    assert_eq!(json_u32(&fields, &vec!["Serial"]), 17);
}

#[test]
fn unsigned_parsing_matches_from_str() {
    let p = |s: &str| parse_u32(&s.chars().collect());
    assert_eq!(p("0"), Some(0));
    assert_eq!(p("+42"), Some(42));
    assert_eq!(p("4294967295"), Some(u32::MAX));
    assert_eq!(p("4294967296"), None);
    assert_eq!(p(""), None);
    assert_eq!(p("+"), None);
    assert_eq!(p("-1"), None);
    assert_eq!(p("1a"), None);
    for s in ["0", "+42", "4294967295", "4294967296", "", "+", "-1", "1a", "007"] {
        assert_eq!(p(s), s.parse::<u32>().ok(), "{s}");
    }
}

#[test]
fn decimal_text_matches_to_string() {
    for i in [0i64, 7, 10, 99, -1, -10, 123456789, i64::MAX, i64::MIN] {
        assert_eq!(decimal_i64(i), i.to_string());
    }
}
