use disaster_alert::models::subscription::{normalize_bands_for_storage, normalize_bark_level, NotificationBand};
use disaster_alert::text::trim_to_string;
use disaster_alert::routes::subscribe::{
    known_source, normalize_locations, normalize_notify_bands, resolve_notify_bands, valid_source_overrides,
    validate_bark_id, BandError, BarkIdError, LocationError, LocationField, LocationText, MAX_LOCATION_NAME_CHARS,
};
use disaster_alert::routes::subscribe::{
    confirmation_reply, reverse_geocode_reply, screen_subscribe_request, subscribe_store_reply, unsubscribe_reply,
    ReplyStatus, SubscribeInput, SubscribeRejection,
};

fn band(min: u8, max: u8, level: &str, label: &str) -> NotificationBand {
    NotificationBand { min, max, level: level.to_string(), label: label.to_string() }
}

fn location() -> LocationText {
    LocationText {
        name: "home".to_string(),
        province: String::new(),
        city: String::new(),
        district: String::new(),
    }
}

#[test]
fn weather_only_subscription_accepts_empty_intensity_bands() {
    let bands: Vec<NotificationBand> = Vec::new();
    assert!(matches!(resolve_notify_bands(false, &bands), Ok(bands) if bands.is_empty()));
}

#[test]
fn earthquake_warning_subscription_requires_intensity_bands() {
    let bands: Vec<NotificationBand> = Vec::new();
    assert!(resolve_notify_bands(true, &bands).is_err());
}

#[test]
fn administrative_fields_obey_location_length_limit() {
    let mut payload = location();
    payload.province = "省".repeat(MAX_LOCATION_NAME_CHARS + 1);
    assert!(normalize_locations(&vec![payload], true).is_err());
}

#[test]
fn location_fields_are_trimmed_and_checked_in_order() {
    let mut l = location();
    l.name = "  家  ".to_string();
    l.city = " 成都市 ".to_string();
    let out = normalize_locations(&vec![l], true).expect("valid");
    assert_eq!(out[0].name, "家");
    assert_eq!(out[0].city, "成都市");

    let mut l = location();
    l.district = "区".repeat(81);
    l.city = "市".repeat(81);
    let err = normalize_locations(&vec![l], true).unwrap_err();
    assert_eq!(err, LocationError::FieldTooLong(LocationField::City));
    assert_eq!(err.message(), "监测地点城市最多 80 个字符");

    let mut l = location();
    l.name = format!("  {}  ", "名".repeat(80));
    assert!(normalize_locations(&vec![l], true).is_ok());
}

#[test]
fn location_list_errors_come_first() {
    assert_eq!(normalize_locations(&vec![], true).unwrap_err(), LocationError::Missing);
    let four = vec![location(), location(), location(), location()];
    assert_eq!(normalize_locations(&four, false).unwrap_err(), LocationError::TooMany);
    assert_eq!(normalize_locations(&vec![location()], false).unwrap_err(), LocationError::InvalidCoordinates);
    assert_eq!(LocationError::InvalidCoordinates.message(), "监测地点坐标无效");
}

#[test]
fn bands_are_sorted_normalised_and_widened() {
    let bands = vec![band(7, 8, " CRITICAL ", " 紧急 "), band(1, 3, "passive", ""), band(4, 6, "Active", "x")];
    let out = normalize_notify_bands(&bands).expect("valid");
    let got: Vec<_> = out.iter().map(|b| (b.min, b.max, b.level.as_str(), b.label.as_str())).collect();
    assert_eq!(got, vec![(1, 3, "passive", ""), (4, 6, "active", "x"), (7, 8, "critical", "紧急")]);

    let out = normalize_notify_bands(&vec![band(5, 6, "critical", "")]).expect("valid");
    assert_eq!(out[0].max, 99);
}

#[test]
fn band_errors_are_reported() {
    assert_eq!(normalize_notify_bands(&vec![]).unwrap_err(), BandError::Missing);
    let four = vec![band(1, 1, "passive", ""), band(2, 2, "active", ""), band(3, 3, "critical", ""), band(4, 4, "passive", "")];
    assert_eq!(normalize_notify_bands(&four).unwrap_err(), BandError::TooMany);
    assert_eq!(normalize_notify_bands(&vec![band(1, 2, "loud", "")]).unwrap_err(), BandError::InvalidLevel);
    assert_eq!(
        normalize_notify_bands(&vec![band(1, 2, "active", ""), band(3, 4, "ACTIVE", "")]).unwrap_err(),
        BandError::DuplicateLevel
    );
    assert_eq!(normalize_notify_bands(&vec![band(5, 2, "active", "")]).unwrap_err(), BandError::InvalidRange);
    assert_eq!(normalize_notify_bands(&vec![band(5, 100, "active", "")]).unwrap_err(), BandError::InvalidRange);
    assert_eq!(
        normalize_notify_bands(&vec![band(1, 2, "active", &"标".repeat(33))]).unwrap_err(),
        BandError::LabelTooLong
    );
    assert_eq!(
        normalize_notify_bands(&vec![band(1, 4, "passive", ""), band(4, 9, "active", "")]).unwrap_err(),
        BandError::Overlap
    );
    assert_eq!(
        normalize_notify_bands(&vec![band(1, 3, "passive", ""), band(5, 6, "critical", ""), band(8, 9, "active", "")])
            .unwrap_err(),
        BandError::Overlap
    );
    assert_eq!(BandError::Overlap.message(), "通知级别烈度范围不能重叠");
}

#[test]
fn bark_ids_are_checked() {
    assert_eq!(validate_bark_id("  abc123 "), Ok("abc123".to_string()));
    assert_eq!(validate_bark_id("   "), Err(BarkIdError::Empty));
    assert_eq!(validate_bark_id(&"a".repeat(65)), Err(BarkIdError::TooLong));
    assert_eq!(validate_bark_id(&"a".repeat(64)), Ok("a".repeat(64)));
    assert_eq!(validate_bark_id(&"北".repeat(22)), Err(BarkIdError::TooLong));
    assert_eq!(validate_bark_id(&"北".repeat(21)), Err(BarkIdError::InvalidCharacters));
    assert_eq!(validate_bark_id("abc-123"), Err(BarkIdError::InvalidCharacters));
    assert_eq!(BarkIdError::Empty.message(), "Bark ID 不能为空");
}

#[test]
fn source_overrides_name_registered_sources() {
    assert!(known_source("wolfx.sc_eew"));
    assert!(!known_source("wolfx.sc"));
    assert!(valid_source_overrides(&vec!["fanstudio.tsunami".to_string(), "wolfx.cq_eew".to_string()]));
    assert!(!valid_source_overrides(&vec!["fanstudio.tsunami".to_string(), "nope".to_string()]));
    assert!(valid_source_overrides(&vec![]));
    assert!(!valid_source_overrides(&vec!["wolfx.cq_eew".to_string(); 65]));
    assert!(valid_source_overrides(&vec!["wolfx.cq_eew".to_string(); 64]));
}

fn subscribe_input() -> SubscribeInput {
    SubscribeInput {
        bark_id: "  abc123 ".to_string(),
        bark_url: Some("https://api.day.app".to_string()),
        bark_url_allowed: true,
        locations: vec![location()],
        coordinates_valid: true,
        earthquake_warning: true,
        notify_bands: vec![band(3, 5, " Active ", " 中 ")],
        rules_error: None,
        sources: vec!["wolfx.cenc_eew".to_string()],
    }
}

#[test]
fn an_acceptable_subscribe_request_is_normalised() {
    let accepted = screen_subscribe_request(&subscribe_input()).expect("request is acceptable");
    assert_eq!(accepted.bark_id, "abc123");
    assert_eq!(accepted.bark_url, "https://api.day.app");
    assert_eq!(accepted.locations.len(), 1);
    assert_eq!(accepted.notify_bands.len(), 1);
    let b = &accepted.notify_bands[0];
    assert_eq!((b.min, b.max, b.level.as_str(), b.label.as_str()), (3, 5, "active", "中"));
}

#[test]
fn subscribe_request_checks_come_in_order() {
    let mut input = subscribe_input();
    input.bark_id = "bad id!".to_string();
    input.bark_url = None;
    assert!(matches!(screen_subscribe_request(&input), Err(SubscribeRejection::BarkId(BarkIdError::InvalidCharacters))));

    let mut input = subscribe_input();
    input.bark_url = None;
    input.bark_url_allowed = false;
    assert!(matches!(screen_subscribe_request(&input), Err(SubscribeRejection::BarkUrlInvalid)));

    let mut input = subscribe_input();
    input.bark_url_allowed = false;
    input.locations = Vec::new();
    let refused = screen_subscribe_request(&input).unwrap_err();
    assert!(matches!(refused, SubscribeRejection::BarkUrlNotAllowed));
    let reply = refused.reply();
    assert_eq!(reply.status, ReplyStatus::BadRequest);
    assert_eq!(reply.message, "Bark URL 不在允许列表中");

    let mut input = subscribe_input();
    input.coordinates_valid = false;
    input.notify_bands = Vec::new();
    assert!(matches!(screen_subscribe_request(&input), Err(SubscribeRejection::Locations(LocationError::InvalidCoordinates))));

    let mut input = subscribe_input();
    input.notify_bands = Vec::new();
    input.rules_error = Some("rules".to_string());
    assert!(matches!(screen_subscribe_request(&input), Err(SubscribeRejection::Bands(BandError::Missing))));

    let mut input = subscribe_input();
    input.rules_error = Some("降雨阈值无效".to_string());
    input.sources = vec!["nope".to_string()];
    let refused = screen_subscribe_request(&input).unwrap_err();
    assert_eq!(refused.reply().message, "降雨阈值无效");

    let mut input = subscribe_input();
    input.sources = vec!["nope".to_string()];
    let refused = screen_subscribe_request(&input).unwrap_err();
    assert!(matches!(refused, SubscribeRejection::Sources));
    assert_eq!(refused.reply().message, "灾害来源配置无效");

    let mut input = subscribe_input();
    input.earthquake_warning = false;
    input.notify_bands = Vec::new();
    input.sources = Vec::new();
    assert!(screen_subscribe_request(&input).expect("weather only").notify_bands.is_empty());
}

#[test]
fn replies_after_confirmation_and_store() {
    assert!(confirmation_reply(&Ok(())).is_none());
    let reply = confirmation_reply(&Err("timeout".to_string())).expect("failed push is answered");
    assert_eq!(reply.status, ReplyStatus::BadGateway);
    assert_eq!(reply.status.code(), 502);
    assert_eq!(reply.message, "订阅确认提醒发送失败，订阅未保存: timeout");

    let reply = subscribe_store_reply(&Ok(()));
    assert_eq!((reply.status, reply.message.as_str()), (ReplyStatus::Success, "订阅成功"));
    let reply = subscribe_store_reply(&Err("disk".to_string()));
    assert_eq!((reply.status.code(), reply.message.as_str()), (500, "订阅失败: disk"));
}

#[test]
fn unsubscribe_replies_follow_the_store_error() {
    let reply = unsubscribe_reply(&Ok(()));
    assert_eq!((reply.status.code(), reply.message.as_str()), (200, "已取消订阅"));
    let reply = unsubscribe_reply(&Err("订阅不存在".to_string()));
    assert_eq!((reply.status, reply.message.as_str()), (ReplyStatus::NotFound, "取消订阅失败: 订阅不存在"));
    let reply = unsubscribe_reply(&Err("io error".to_string()));
    assert_eq!((reply.status.code(), reply.message.as_str()), (500, "取消订阅失败: io error"));
}

#[test]
fn reverse_geocode_replies() {
    assert_eq!(reverse_geocode_reply(false, true).status.code(), 400);
    assert_eq!(reverse_geocode_reply(true, true).message, "区域信息解析成功");
    assert_eq!(reverse_geocode_reply(true, false).status, ReplyStatus::ServiceUnavailable);
}

#[test]
fn an_accepted_bark_id_is_accepted_again_unchanged() {
    let id = validate_bark_id("  Abc123 \n").expect("valid id");
    assert_eq!(id, "Abc123");
    assert_eq!(validate_bark_id(&id).expect("still valid"), id);
}

#[test]
fn accepted_bands_pass_storage_normalisation_unchanged() {
    let accepted = resolve_notify_bands(true, &vec![band(6, 6, " CRITICAL ", "x"), band(1, 2, "Passive", " y ")])
        .expect("bands are acceptable");
    let mut stored = accepted.clone();
    assert!(normalize_bands_for_storage(&mut stored).is_ok());
    assert_eq!(stored.len(), accepted.len());
    for (a, b) in accepted.iter().zip(stored.iter()) {
        assert_eq!((a.min, a.max, &a.level, &a.label), (b.min, b.max, &b.level, &b.label));
    }
    assert_eq!(stored[1].level, "critical");
    assert_eq!(stored[1].max, 99);
    assert_eq!(normalize_bark_level(&stored[0].level), "passive");
}

#[test]
fn trimming_twice_is_trimming_once() {
    let once = trim_to_string("\u{3000} 北京 \t");
    assert_eq!(once, "北京");
    assert_eq!(trim_to_string(&once), once);
}
