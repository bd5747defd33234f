use disaster_alert::models::disaster::{event_key, DisasterCategory, ProviderChannel};
use disaster_alert::models::subscription::{
    level_for_intensity, mask_bark_id, normalize_bark_level, normalize_bands_for_storage, selected_band,
    validate_bark_level, ApiResponse, NotificationBand,
};

fn band(min: u8, max: u8, level: &str) -> NotificationBand {
    NotificationBand { min, max, level: level.to_string(), label: String::new() }
}

#[test]
fn subscription_level_for_intensity_uses_lowest_matching_band_min() {
    let notify_bands = vec![band(4, 6, "critical"), band(2, 5, "active")];
    assert_eq!(level_for_intensity(&notify_bands, 5), Some("active"));
}

#[test]
fn models_level_for_intensity_uses_lowest_matching_band_min() {
    let notify_bands = vec![band(4, 6, "critical"), band(2, 5, "active")];
    assert_eq!(level_for_intensity(&notify_bands, 5), Some("active"));
}

#[test]
fn level_for_intensity_ignores_invalid_levels_and_ranges() {
    let notify_bands = vec![band(0, 9, "loud"), band(3, 4, "passive"), band(3, 8, "active")];
    assert_eq!(level_for_intensity(&notify_bands, 5), Some("active"));
    assert_eq!(level_for_intensity(&notify_bands, 3), Some("passive"));
    assert_eq!(selected_band(&notify_bands, 3), Some(1));
    assert_eq!(level_for_intensity(&notify_bands, 9), None);
    assert_eq!(level_for_intensity(&vec![], 1), None);
}

#[test]
fn bark_levels_are_trimmed_and_lowercased() {
    assert_eq!(normalize_bark_level("  CriTical\t"), "critical");
    assert_eq!(normalize_bark_level("ÄCTIVE"), "Äctive");
    assert!(validate_bark_level("passive"));
    assert!(validate_bark_level("active"));
    assert!(validate_bark_level("critical"));
    assert!(!validate_bark_level("Active"));
    assert!(!validate_bark_level(" active"));
}

#[test]
fn bark_ids_are_masked() {
    assert_eq!(mask_bark_id("abc123"), "***");
    assert_eq!(mask_bark_id("  abcdefgh  "), "abc***fgh");
    assert_eq!(mask_bark_id("北京市朝阳区望京"), "北京市***区望京");
    assert_eq!(mask_bark_id(""), "***");
}

#[test]
fn storage_normalisation_stops_at_the_first_unknown_level() {
    let mut bands = vec![band(1, 2, " ACTIVE "), band(3, 4, "CRITICAL")];
    assert!(normalize_bands_for_storage(&mut bands).is_ok());
    assert_eq!(bands[0].level, "active");
    assert_eq!(bands[1].level, "critical");

    let mut bands = vec![band(1, 2, "Passive"), band(3, 4, " loud "), band(5, 6, " ACTIVE ")];
    assert_eq!(
        normalize_bands_for_storage(&mut bands),
        Err("通知级别必须是 passive、active 或 critical".to_string())
    );
    assert_eq!(bands[0].level, "passive");
    assert_eq!(bands[1].level, "loud");
    assert_eq!(bands[2].level, " ACTIVE ");
}

#[test]
fn api_responses_carry_their_outcome() {
    let ok = ApiResponse::success("订阅成功".to_string(), Some(3));
    assert!(ok.success);
    assert_eq!(ok.message, "订阅成功");
    assert_eq!(ok.data, Some(3));
    let err = ApiResponse::<u8>::error("坐标无效".to_string());
    assert!(!err.success);
    assert_eq!(err.data, None);
}

#[test]
fn categories_and_channels_have_stable_ids() {
    assert_eq!(DisasterCategory::EarthquakeWarning.as_str(), "earthquake_warning");
    assert_eq!(DisasterCategory::EarthquakeReport.as_str(), "earthquake_report");
    assert_eq!(DisasterCategory::WeatherWarning.as_str(), "weather_warning");
    assert_eq!(DisasterCategory::Tsunami.as_str(), "tsunami");
    assert_eq!(DisasterCategory::Typhoon.as_str(), "typhoon");
    assert_eq!(DisasterCategory::all().len(), 5);
    assert_eq!(ProviderChannel::Wolfx.as_str(), "wolfx");
    assert_eq!(ProviderChannel::FanStudio.as_str(), "fanstudio");
}

#[test]
fn event_keys_join_source_and_event_id() {
    assert_eq!(event_key("fanstudio.cenc", "2026-01"), "fanstudio.cenc:2026-01");
    assert_eq!(event_key("", ""), ":");
}
