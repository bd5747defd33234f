use vstd::prelude::*;

verus! {

/// The kinds of disaster that a subscription can ask to be told about.
#[derive(Debug, Clone, Copy, PartialEq, Eq, Structural, Hash)]
pub enum DisasterCategory {
    EarthquakeWarning,
    EarthquakeReport,
    WeatherWarning,
    Tsunami,
    Typhoon,
}

/// The upstream feed an event arrived on.
#[derive(Debug, Clone, Copy, PartialEq, Eq, Structural, Hash)]
pub enum ProviderChannel {
    Wolfx,
    FanStudio,
}

impl DisasterCategory {
    /// The identifier of the category in configuration and API payloads.
    pub open spec fn id(self) -> Seq<char> {
        match self {
            DisasterCategory::EarthquakeWarning => "earthquake_warning"@,
            DisasterCategory::EarthquakeReport => "earthquake_report"@,
            DisasterCategory::WeatherWarning => "weather_warning"@,
            DisasterCategory::Tsunami => "tsunami"@,
            DisasterCategory::Typhoon => "typhoon"@,
        }
    }

    /// All categories, in declaration order.
    pub open spec fn all_spec() -> Seq<DisasterCategory> {
        seq![
            DisasterCategory::EarthquakeWarning,
            DisasterCategory::EarthquakeReport,
            DisasterCategory::WeatherWarning,
            DisasterCategory::Tsunami,
            DisasterCategory::Typhoon,
        ]
    }

    pub fn as_str(self) -> (s: &'static str)
        ensures
            s@ == self.id(),
    {
        match self {
            DisasterCategory::EarthquakeWarning => "earthquake_warning",
            DisasterCategory::EarthquakeReport => "earthquake_report",
            DisasterCategory::WeatherWarning => "weather_warning",
            DisasterCategory::Tsunami => "tsunami",
            DisasterCategory::Typhoon => "typhoon",
        }
    }

    /// All categories, in declaration order.
    pub fn all() -> (v: Vec<DisasterCategory>)
        ensures
            v@ == Self::all_spec(),
    {
        let v = vec![
            DisasterCategory::EarthquakeWarning,
            DisasterCategory::EarthquakeReport,
            DisasterCategory::WeatherWarning,
            DisasterCategory::Tsunami,
            DisasterCategory::Typhoon,
        ];
        assert(v@ == Self::all_spec());
        v
    }
}

impl ProviderChannel {
    /// The identifier of the channel in logs and status output.
    pub open spec fn id(self) -> Seq<char> {
        match self {
            ProviderChannel::Wolfx => "wolfx"@,
            ProviderChannel::FanStudio => "fanstudio"@,
        }
    }

    pub fn as_str(self) -> (s: &'static str)
        ensures
            s@ == self.id(),
    {
        match self {
            ProviderChannel::Wolfx => "wolfx",
            ProviderChannel::FanStudio => "fanstudio",
        }
    }
}

/// The key under which an event is de-duplicated: `"{source}:{event_id}"`.
pub fn event_key(source: &str, event_id: &str) -> (k: String)
    ensures
        k@ == source@ + ":"@ + event_id@,
{
    let mut k = String::from_str(source);
    k.append(":");
    k.append(event_id);
    k
}

} // verus!
