# disaster_alert

The decision logic of a disaster-alert subscription service, written in
Verus with its contracts proved.

## Layout

- `src/` — the verified library.
  - `text.rs`: trimming, ASCII lower-casing and UTF-8 lengths as `str` does them.
  - `models/`: disaster categories and provider channels, notification bands,
    Bark levels and masked Bark IDs.
  - `source_registry.rs`: the registry of upstream sources, lookups by id and
    by provider key, and the grouped source options of the subscription page.
    A category option carries its id and its source groups only: the
    category's display label and its default alert rule come from modules
    (`DisasterCategory::label`, `AlertRule`) that are not part of these
    sources.
  - `routes/subscribe.rs`: the checks a subscribe or unsubscribe request goes
    through, in order, and the answer each outcome gets.
  - `db/`: the in-memory subscription cache (versions, snapshots, staleness)
    and its grid-cell and region index; persisted record keys.
  - `services/`: the reverse-geocoding cache and request pacing, and the
    per-channel runtime counters.
  - `backend/models.rs`: source dispatch and field extraction for
    early-warning messages from unknown sources.
- `tests/` — tests of the library on concrete values.
- `app/` — the service around it: sled persistence, axum handlers, the HTTP
  client for reverse geocoding, serde types, and everything that works on
  floating-point coordinates, magnitudes and distances.

## Not part of these sources

The service also relies on modules that are not included here and that
`app/` therefore takes as parameters: region-name normalisation, the Bark
URL normalisation of the configuration, the Bark notifier, coordinate and
distance helpers, alert rules and category labels, the flat list of source
groups, and the subscription web page.
