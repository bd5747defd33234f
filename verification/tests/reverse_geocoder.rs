use disaster_alert::services::reverse_geocoder::{
    first_non_empty, CoordinateKey, GeocoderCache, NominatimAddress, ReverseGeocodeResult, CACHE_TTL_MS,
    MAX_CACHE_ENTRIES,
};

#[test]
fn maps_nominatim_address_fallbacks() {
    let result = NominatimAddress {
        state: Some("四川省".to_string()),
        province: None,
        region: None,
        city: None,
        town: Some("成都市".to_string()),
        municipality: None,
        county: None,
        city_district: Some("武侯区".to_string()),
        district: None,
        borough: None,
        suburb: None,
    }
    .into_result();
    assert!(result.province == "四川省");
    assert!(result.city == "成都市");
    assert!(result.district == "武侯区");
}

#[test]
fn blank_address_fields_fall_through_and_are_trimmed() {
    let result = NominatimAddress {
        state: Some("   ".to_string()),
        province: Some("  广东省 ".to_string()),
        region: Some("ignored".to_string()),
        ..Default::default()
    }
    .into_result();
    assert_eq!(result.province, "广东省");
    assert_eq!(result.city, "");
    assert_eq!(result.district, "");
}

#[test]
fn first_non_empty_skips_missing_and_blank_values() {
    assert_eq!(first_non_empty(&vec![None, Some(" \t".to_string()), Some(" x ".to_string())]), "x");
    assert_eq!(first_non_empty(&vec![None, None]), "");
    assert_eq!(first_non_empty(&vec![]), "");
}

fn answer(city: &str) -> ReverseGeocodeResult {
    ReverseGeocodeResult { province: "p".to_string(), city: city.to_string(), district: "d".to_string() }
}

#[test]
fn cached_answer_is_fresh_for_a_day_only() {
    let mut cache = GeocoderCache::new();
    let key = CoordinateKey { latitude: 351234, longitude: 1391234 };
    assert!(cache.lookup(key, 0).is_none());
    cache.insert(key, answer("a"), 1_000);
    assert_eq!(cache.lookup(key, 1_000).map(|r| r.city), Some("a".to_string()));
    assert_eq!(cache.lookup(key, 1_000 + CACHE_TTL_MS).map(|r| r.city), Some("a".to_string()));
    assert!(cache.lookup(key, 1_001 + CACHE_TTL_MS).is_none());
    cache.insert(key, answer("b"), 2_000);
    assert_eq!(cache.lookup(key, 2_000).map(|r| r.city), Some("b".to_string()));
}

#[test]
fn cache_evicts_the_oldest_answer_beyond_capacity() {
    let mut cache = GeocoderCache::new();
    for index in 0..(MAX_CACHE_ENTRIES as i32 + 1) {
        cache.insert(CoordinateKey { latitude: index, longitude: 0 }, answer("x"), 5);
    }
    assert!(cache.lookup(CoordinateKey { latitude: 0, longitude: 0 }, 5).is_none());
    assert!(cache.lookup(CoordinateKey { latitude: 1, longitude: 0 }, 5).is_some());
    assert!(cache.lookup(CoordinateKey { latitude: MAX_CACHE_ENTRIES as i32, longitude: 0 }, 5).is_some());
}

#[test]
fn refreshing_an_answer_protects_it_from_eviction() {
    let mut cache = GeocoderCache::new();
    for index in 0..(MAX_CACHE_ENTRIES as i32) {
        cache.insert(CoordinateKey { latitude: index, longitude: 0 }, answer("x"), 5);
    }
    cache.insert(CoordinateKey { latitude: 0, longitude: 0 }, answer("y"), 6);
    cache.insert(CoordinateKey { latitude: -1, longitude: 0 }, answer("z"), 7);
    assert_eq!(cache.lookup(CoordinateKey { latitude: 0, longitude: 0 }, 7).map(|r| r.city), Some("y".to_string()));
    assert!(cache.lookup(CoordinateKey { latitude: 1, longitude: 0 }, 7).is_none());
}

#[test]
fn upstream_requests_are_spaced_by_a_second() {
    let mut cache = GeocoderCache::new();
    assert_eq!(cache.request_delay_ms(100), 0);
    cache.mark_request(100);
    assert_eq!(cache.request_delay_ms(100), 1_000);
    assert_eq!(cache.request_delay_ms(400), 700);
    assert_eq!(cache.request_delay_ms(1_100), 0);
    assert_eq!(cache.request_delay_ms(50), 1_000);
}

#[test]
fn an_answer_survives_fewer_inserts_than_the_capacity_within_a_day() {
    let mut cache = GeocoderCache::new();
    let home = CoordinateKey { latitude: 351234, longitude: 1391234 };
    cache.insert(home, answer("home"), 10);
    for i in 0..(MAX_CACHE_ENTRIES as i32 - 1) {
        cache.insert(CoordinateKey { latitude: i, longitude: -i }, answer("other"), 20);
    }
    let kept = cache.lookup(home, 10 + CACHE_TTL_MS).expect("still cached within the day");
    assert_eq!(kept.city, "home");
    assert!(cache.lookup(home, 11 + CACHE_TTL_MS).is_none());
    cache.insert(CoordinateKey { latitude: -1, longitude: -1 }, answer("other"), 30);
    assert!(cache.lookup(home, 40).is_none());
}
