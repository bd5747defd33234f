use disaster_alert::models::disaster::{DisasterCategory, ProviderChannel};
use disaster_alert::source_registry::{category_options, find, find_provider, source_at, source_count};
use std::collections::{HashMap, HashSet};

#[test]
fn registry_ids_are_unique_and_every_source_is_grouped() {
    let sources: Vec<_> = (0..source_count()).map(source_at).collect();
    let ids = sources.iter().map(|source| source.id).collect::<HashSet<_>>();
    assert_eq!(ids.len(), sources.len());
    let provider_keys = sources
        .iter()
        .map(|source| (source.channel, source.provider_key))
        .collect::<HashSet<_>>();
    assert_eq!(provider_keys.len(), sources.len());
    let mut group_metadata = HashMap::new();
    for source in &sources {
        let metadata = (source.category, source.group_label);
        assert_eq!(group_metadata.entry(source.group_id).or_insert(metadata), &metadata);
    }
    assert_eq!(
        category_options()
            .iter()
            .flat_map(|category| &category.source_groups)
            .map(|group| group.sources.len())
            .sum::<usize>(),
        sources.len()
    );
}

#[test]
fn find_returns_the_registered_source() {
    let source = find("fanstudio.cwa-eew").expect("registered");
    assert_eq!(source.provider_key, "cwa-eew");
    assert_eq!(source.channel, ProviderChannel::FanStudio);
    assert_eq!(source.category, DisasterCategory::EarthquakeWarning);
    assert!(find("fanstudio.unknown").is_none());
    assert!(find("").is_none());
}

#[test]
fn find_provider_distinguishes_channels() {
    assert_eq!(find_provider(ProviderChannel::Wolfx, "jma_eew").map(|s| s.id), Some("wolfx.jma_eew"));
    assert_eq!(find_provider(ProviderChannel::FanStudio, "jma").map(|s| s.id), Some("fanstudio.jma"));
    assert!(find_provider(ProviderChannel::Wolfx, "jma").is_none());
}

#[test]
fn category_options_follow_declaration_and_registry_order() {
    let options = category_options();
    let ids: Vec<_> = options.iter().map(|o| o.id).collect();
    assert_eq!(ids, vec!["earthquake_warning", "earthquake_report", "weather_warning", "tsunami", "typhoon"]);
    let warning_groups: Vec<_> = options[0].source_groups.iter().map(|g| (g.id, g.sources.len())).collect();
    assert_eq!(warning_groups, vec![("wolfx-earthquake-warning", 5), ("fanstudio-earthquake-warning", 6)]);
    assert_eq!(options[0].source_groups[0].sources[0].id, "wolfx.jma_eew");
    assert_eq!(options[1].source_groups.len(), 1);
    assert_eq!(options[1].source_groups[0].sources.len(), 16);
    assert_eq!(options[4].source_groups[0].sources[0].label, "中国气象局活跃台风");
}
