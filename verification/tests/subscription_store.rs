use disaster_alert::db::subscription_store::{
    administrative_fields, classify_error, grid_cell, mask_subscription_key, radius_query_cells, subscription_key,
    subscription_key_matches, LonSpan, StoreErrorKind, SubscriptionCache,
};
use disaster_alert::routes::subscribe::LocationText;

#[derive(Debug, Clone, PartialEq)]
struct Place {
    latitude: f64,
    longitude: f64,
}

fn cell_of(latitude: f64, longitude: f64) -> (i16, i16) {
    grid_cell(latitude.floor() as i64, longitude.floor() as i64)
}

fn store(cache: &mut SubscriptionCache<Place>, bark_id: &str, latitude: f64, longitude: f64) -> u64 {
    cache
        .upsert(bark_id.to_string(), Place { latitude, longitude }, vec![cell_of(latitude, longitude)], Vec::new())
        .expect("versions left")
}

fn collect(cache: &SubscriptionCache<Place>) -> Vec<(String, Place)> {
    cache.snapshot().iter().map(|e| (e.bark_id.clone(), e.record.clone())).collect()
}

#[test]
fn primary_records_are_globally_iterable_and_track_updates() {
    let mut cache = SubscriptionCache::new();
    store(&mut cache, "abc123", 39.9042, 116.4074);
    let found = collect(&cache);
    assert!(found.len() == 1, "expected one beijing subscription");
    assert!(found[0].0 == "abc123", "unexpected bark id");

    store(&mut cache, "abc123", 31.2397, 121.4999);
    let updated = collect(&cache);
    assert!(updated.len() == 1, "expected one updated subscription");
    assert!(updated[0].1.longitude == 121.4999, "unexpected longitude");

    store(&mut cache, "tokyo1", 35.6762, 139.6503);
    store(&mut cache, "london1", 51.5072, -0.1276);
    assert!(collect(&cache).len() == 3, "all subscriptions must be evaluated globally");

    assert!(cache.remove("abc123"));
    assert!(collect(&cache).len() == 2, "deleted subscription must not be returned");
}

#[test]
fn snapshot_scan_scales_without_database_reads() {
    let mut cache = SubscriptionCache::new();
    for index in 0..100_000 {
        store(&mut cache, &format!("device{index:06}"), 35.6762, 139.6503);
    }
    let mut count = 0usize;
    for _entry in cache.snapshot() {
        count += 1;
    }
    assert!(count == 100_000, "snapshot scan must include every subscription");
}

#[test]
fn display_names_do_not_create_administrative_region_matches() {
    let mut cache = SubscriptionCache::new();
    let locations = vec![LocationText {
        name: "北京".to_string(),
        province: String::new(),
        city: String::new(),
        district: String::new(),
    }];
    let regions = administrative_fields(&locations);
    cache
        .upsert("device1".to_string(), Place { latitude: 30.0, longitude: 120.0 }, vec![cell_of(30.0, 120.0)], regions)
        .expect("versions left");
    let count = cache.candidates(&Vec::new(), &vec!["北京市".to_string()]).len();
    assert!(count == 0, "display labels must not be indexed as regions");
}

#[test]
fn stale_snapshot_is_invalidated_by_an_update_or_delete() {
    let mut cache = SubscriptionCache::new();
    store(&mut cache, "device1", 35.6762, 139.6503);
    let snapshot = cache.snapshot().first().map(|e| (e.bark_id.clone(), e.version));
    let (bark_id, version) = snapshot.expect("expected a subscription snapshot");
    assert!(cache.is_current(&bark_id, version), "snapshot should start current");

    store(&mut cache, "device1", 51.5072, -0.1276);
    assert!(!cache.is_current(&bark_id, version), "update must invalidate old snapshot");

    let replacement = cache.snapshot().first().map(|e| (e.bark_id.clone(), e.version));
    let (bark_id, version) = replacement.expect("expected replacement snapshot");
    assert!(cache.is_current(&bark_id, version), "replacement must be current");

    assert!(cache.remove("device1"));
    assert!(!cache.is_current(&bark_id, version), "delete must invalidate snapshot");
}

#[test]
fn removing_an_unknown_subscription_changes_nothing() {
    let mut cache = SubscriptionCache::new();
    store(&mut cache, "a1", 1.0, 1.0);
    assert!(!cache.remove("b2"));
    assert_eq!(cache.len(), 1);
    assert!(cache.get("a1").is_some());
    assert!(cache.get("b2").is_none());
}

#[test]
fn candidates_follow_cells_and_regions() {
    let mut cache = SubscriptionCache::new();
    cache.upsert("c".to_string(), Place { latitude: 0.0, longitude: 0.0 }, vec![(10, 20)], vec!["四川".to_string()]).unwrap();
    cache.upsert("a".to_string(), Place { latitude: 0.0, longitude: 0.0 }, vec![(10, 21), (11, 20)], vec![]).unwrap();
    cache.upsert("b".to_string(), Place { latitude: 0.0, longitude: 0.0 }, vec![(-5, 179)], vec!["".to_string()]).unwrap();
    let c1 = cache.candidates(&vec![(10, 20), (10, 20)], &vec![]);
    let c2 = cache.candidates(&vec![(11, 20), (-5, 179)], &vec![]);
    let c3 = cache.candidates(&vec![], &vec!["四川".to_string()]);
    let c4 = cache.candidates(&vec![(10, 21)], &vec!["四川".to_string(), "".to_string()]);
    let c5 = cache.candidates(&vec![], &vec!["".to_string()]);
    let positions = cache.positions_of(&vec!["b".to_string(), "zz".to_string(), "a".to_string()]);
    let ids = |positions: Vec<usize>| -> Vec<String> {
        positions.into_iter().map(|p| cache.snapshot()[p].bark_id.clone()).collect()
    };
    let sorted = |positions: Vec<usize>| -> Vec<String> {
        let mut names = ids(positions);
        names.sort();
        names
    };
    assert_eq!(sorted(c1), vec!["c".to_string()]);
    assert_eq!(sorted(c2), vec!["a".to_string(), "b".to_string()]);
    assert_eq!(sorted(c3), vec!["c".to_string()]);
    assert_eq!(sorted(c4), vec!["a".to_string(), "c".to_string()]);
    assert!(c5.is_empty());
    assert_eq!(ids(positions), vec!["b".to_string(), "a".to_string()]);
}

#[test]
fn candidates_see_entries_stored_after_an_earlier_query() {
    let mut cache = SubscriptionCache::new();
    cache.upsert("a".to_string(), Place { latitude: 0.0, longitude: 0.0 }, vec![(1, 1)], vec![]).unwrap();
    assert_eq!(cache.candidates(&vec![(1, 1)], &vec![]).len(), 1);
    cache.upsert("b".to_string(), Place { latitude: 0.0, longitude: 0.0 }, vec![(1, 1)], vec!["x".to_string()]).unwrap();
    assert_eq!(cache.candidates(&vec![(1, 1)], &vec![]).len(), 2);
    assert_eq!(cache.candidates(&vec![], &vec!["x".to_string()]).len(), 1);
    assert!(cache.remove("a"));
    assert_eq!(cache.candidates(&vec![(1, 1)], &vec![]).len(), 1);
}

#[test]
fn grid_cells_clamp_latitude_and_wrap_longitude() {
    assert_eq!(grid_cell(39, 116), (39, 116));
    assert_eq!(grid_cell(90, 180), (89, -180));
    assert_eq!(grid_cell(-91, -181), (-90, 179));
    assert_eq!(grid_cell(0, -361), (0, -1));
    assert_eq!(grid_cell(0, 540), (0, -180));
}

#[test]
fn radius_query_cells_cover_rows_and_wrap() {
    assert_eq!(
        radius_query_cells(10, 11, LonSpan::Range { min: 178, max: 181 }),
        vec![(10, 178), (10, 179), (10, -180), (10, -179), (11, 178), (11, 179), (11, -180), (11, -179)]
    );
    let full = radius_query_cells(88, 95, LonSpan::Full);
    assert_eq!(full.len(), 2 * 360);
    assert_eq!(full[0], (88, -180));
    assert_eq!(full[719], (89, 179));
    assert!(radius_query_cells(5, 4, LonSpan::Full).is_empty());
    assert!(radius_query_cells(5, 5, LonSpan::Range { min: 3, max: 2 }).is_empty());
}

#[test]
fn record_keys_are_prefixed_bark_ids() {
    assert_eq!(subscription_key("abc"), b"sub:abc".to_vec());
    assert!(subscription_key_matches(b"sub:abc123", "abc123"));
    assert!(!subscription_key_matches(b"sub:abc123", "abc12"));
    assert!(!subscription_key_matches(b"abc123", "abc123"));
    assert_eq!(mask_subscription_key(b"sub:abcdefgh"), "abc***fgh");
    assert_eq!(mask_subscription_key(b"sub:abc"), "***");
    assert_eq!(mask_subscription_key(b"sub:\xff\xfeabcdefg"), "***");
    assert_eq!(mask_subscription_key(b"key:abcdefgh"), "***");
}

#[test]
fn errors_are_classified_by_message() {
    assert_eq!(classify_error("订阅不存在"), StoreErrorKind::NotFound);
    assert_eq!(classify_error("取消订阅失败: 订阅不存在!"), StoreErrorKind::NotFound);
    assert_eq!(classify_error("订阅不"), StoreErrorKind::Internal);
    assert_eq!(classify_error(""), StoreErrorKind::Internal);
}
