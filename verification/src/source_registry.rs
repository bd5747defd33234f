//! The registry of upstream alert sources and the grouping of them that the
//! subscription page offers.
use crate::models::disaster::{DisasterCategory, ProviderChannel};
use crate::text::str_eq;
use vstd::prelude::*;

verus! {

broadcast use vstd::string::group_string_axioms;

/// One upstream source of alerts.
#[derive(Debug, Clone, Copy)]
pub struct SourceDefinition {
    pub id: &'static str,
    pub provider_key: &'static str,
    pub channel: ProviderChannel,
    pub category: DisasterCategory,
    pub group_id: &'static str,
    pub group_label: &'static str,
    pub label: &'static str,
}

/// The mathematical content of a [`SourceDefinition`].
pub struct SourceView {
    pub id: Seq<char>,
    pub provider_key: Seq<char>,
    pub channel: ProviderChannel,
    pub category: DisasterCategory,
    pub group_id: Seq<char>,
    pub group_label: Seq<char>,
    pub label: Seq<char>,
}

impl View for SourceDefinition {
    type V = SourceView;

    open spec fn view(&self) -> SourceView {
        SourceView {
            id: self.id@,
            provider_key: self.provider_key@,
            channel: self.channel,
            category: self.category,
            group_id: self.group_id@,
            group_label: self.group_label@,
            label: self.label@,
        }
    }
}

/// Number of registered sources.
pub open spec fn registry_len() -> nat {
    30
}

/// The `i`-th registered source.
pub open spec fn registry_entry(i: int) -> SourceView {
    if i == 0 {
        SourceView { id: "wolfx.jma_eew"@, provider_key: "jma_eew"@, channel: ProviderChannel::Wolfx, category: DisasterCategory::EarthquakeWarning, group_id: "wolfx-earthquake-warning"@, group_label: "Wolfx 地震预警"@, label: "Wolfx 日本气象厅"@ }
    } else if i == 1 {
        SourceView { id: "wolfx.sc_eew"@, provider_key: "sc_eew"@, channel: ProviderChannel::Wolfx, category: DisasterCategory::EarthquakeWarning, group_id: "wolfx-earthquake-warning"@, group_label: "Wolfx 地震预警"@, label: "Wolfx 四川地震局"@ }
    } else if i == 2 {
        SourceView { id: "wolfx.cenc_eew"@, provider_key: "cenc_eew"@, channel: ProviderChannel::Wolfx, category: DisasterCategory::EarthquakeWarning, group_id: "wolfx-earthquake-warning"@, group_label: "Wolfx 地震预警"@, label: "Wolfx 中国地震台网"@ }
    } else if i == 3 {
        SourceView { id: "wolfx.fj_eew"@, provider_key: "fj_eew"@, channel: ProviderChannel::Wolfx, category: DisasterCategory::EarthquakeWarning, group_id: "wolfx-earthquake-warning"@, group_label: "Wolfx 地震预警"@, label: "Wolfx 福建地震局"@ }
    } else if i == 4 {
        SourceView { id: "wolfx.cq_eew"@, provider_key: "cq_eew"@, channel: ProviderChannel::Wolfx, category: DisasterCategory::EarthquakeWarning, group_id: "wolfx-earthquake-warning"@, group_label: "Wolfx 地震预警"@, label: "Wolfx 重庆地震局"@ }
    } else if i == 5 {
        SourceView { id: "fanstudio.cea"@, provider_key: "cea"@, channel: ProviderChannel::FanStudio, category: DisasterCategory::EarthquakeWarning, group_id: "fanstudio-earthquake-warning"@, group_label: "FAN Studio 地震预警"@, label: "中国地震预警网"@ }
    } else if i == 6 {
        SourceView { id: "fanstudio.cea-pr"@, provider_key: "cea-pr"@, channel: ProviderChannel::FanStudio, category: DisasterCategory::EarthquakeWarning, group_id: "fanstudio-earthquake-warning"@, group_label: "FAN Studio 地震预警"@, label: "中国地震预警网省级网"@ }
    } else if i == 7 {
        SourceView { id: "fanstudio.cwa-eew"@, provider_key: "cwa-eew"@, channel: ProviderChannel::FanStudio, category: DisasterCategory::EarthquakeWarning, group_id: "fanstudio-earthquake-warning"@, group_label: "FAN Studio 地震预警"@, label: "台湾气象署预警"@ }
    } else if i == 8 {
        SourceView { id: "fanstudio.jma"@, provider_key: "jma"@, channel: ProviderChannel::FanStudio, category: DisasterCategory::EarthquakeWarning, group_id: "fanstudio-earthquake-warning"@, group_label: "FAN Studio 地震预警"@, label: "日本气象厅预警"@ }
    } else if i == 9 {
        SourceView { id: "fanstudio.sa"@, provider_key: "sa"@, channel: ProviderChannel::FanStudio, category: DisasterCategory::EarthquakeWarning, group_id: "fanstudio-earthquake-warning"@, group_label: "FAN Studio 地震预警"@, label: "ShakeAlert"@ }
    } else if i == 10 {
        SourceView { id: "fanstudio.kma-eew"@, provider_key: "kma-eew"@, channel: ProviderChannel::FanStudio, category: DisasterCategory::EarthquakeWarning, group_id: "fanstudio-earthquake-warning"@, group_label: "FAN Studio 地震预警"@, label: "韩国气象厅预警"@ }
    } else if i == 11 {
        SourceView { id: "fanstudio.cenc"@, provider_key: "cenc"@, channel: ProviderChannel::FanStudio, category: DisasterCategory::EarthquakeReport, group_id: "fanstudio-earthquake-report"@, group_label: "地震信息"@, label: "中国地震台网测定"@ }
    } else if i == 12 {
        SourceView { id: "fanstudio.ningxia"@, provider_key: "ningxia"@, channel: ProviderChannel::FanStudio, category: DisasterCategory::EarthquakeReport, group_id: "fanstudio-earthquake-report"@, group_label: "地震信息"@, label: "宁夏地震局"@ }
    } else if i == 13 {
        SourceView { id: "fanstudio.guangxi"@, provider_key: "guangxi"@, channel: ProviderChannel::FanStudio, category: DisasterCategory::EarthquakeReport, group_id: "fanstudio-earthquake-report"@, group_label: "地震信息"@, label: "广西地震局"@ }
    } else if i == 14 {
        SourceView { id: "fanstudio.shanxi"@, provider_key: "shanxi"@, channel: ProviderChannel::FanStudio, category: DisasterCategory::EarthquakeReport, group_id: "fanstudio-earthquake-report"@, group_label: "地震信息"@, label: "山西地震局"@ }
    } else if i == 15 {
        SourceView { id: "fanstudio.beijing"@, provider_key: "beijing"@, channel: ProviderChannel::FanStudio, category: DisasterCategory::EarthquakeReport, group_id: "fanstudio-earthquake-report"@, group_label: "地震信息"@, label: "北京地震局"@ }
    } else if i == 16 {
        SourceView { id: "fanstudio.yunnan"@, provider_key: "yunnan"@, channel: ProviderChannel::FanStudio, category: DisasterCategory::EarthquakeReport, group_id: "fanstudio-earthquake-report"@, group_label: "地震信息"@, label: "云南地震局"@ }
    } else if i == 17 {
        SourceView { id: "fanstudio.cwa"@, provider_key: "cwa"@, channel: ProviderChannel::FanStudio, category: DisasterCategory::EarthquakeReport, group_id: "fanstudio-earthquake-report"@, group_label: "地震信息"@, label: "台湾气象署报告"@ }
    } else if i == 18 {
        SourceView { id: "fanstudio.hko"@, provider_key: "hko"@, channel: ProviderChannel::FanStudio, category: DisasterCategory::EarthquakeReport, group_id: "fanstudio-earthquake-report"@, group_label: "地震信息"@, label: "香港天文台"@ }
    } else if i == 19 {
        SourceView { id: "fanstudio.usgs"@, provider_key: "usgs"@, channel: ProviderChannel::FanStudio, category: DisasterCategory::EarthquakeReport, group_id: "fanstudio-earthquake-report"@, group_label: "地震信息"@, label: "USGS"@ }
    } else if i == 20 {
        SourceView { id: "fanstudio.emsc"@, provider_key: "emsc"@, channel: ProviderChannel::FanStudio, category: DisasterCategory::EarthquakeReport, group_id: "fanstudio-earthquake-report"@, group_label: "地震信息"@, label: "EMSC"@ }
    } else if i == 21 {
        SourceView { id: "fanstudio.bcsf"@, provider_key: "bcsf"@, channel: ProviderChannel::FanStudio, category: DisasterCategory::EarthquakeReport, group_id: "fanstudio-earthquake-report"@, group_label: "地震信息"@, label: "BCSF"@ }
    } else if i == 22 {
        SourceView { id: "fanstudio.gfz"@, provider_key: "gfz"@, channel: ProviderChannel::FanStudio, category: DisasterCategory::EarthquakeReport, group_id: "fanstudio-earthquake-report"@, group_label: "地震信息"@, label: "GFZ"@ }
    } else if i == 23 {
        SourceView { id: "fanstudio.usp"@, provider_key: "usp"@, channel: ProviderChannel::FanStudio, category: DisasterCategory::EarthquakeReport, group_id: "fanstudio-earthquake-report"@, group_label: "地震信息"@, label: "USP"@ }
    } else if i == 24 {
        SourceView { id: "fanstudio.kma"@, provider_key: "kma"@, channel: ProviderChannel::FanStudio, category: DisasterCategory::EarthquakeReport, group_id: "fanstudio-earthquake-report"@, group_label: "地震信息"@, label: "韩国气象厅报告"@ }
    } else if i == 25 {
        SourceView { id: "fanstudio.fssn"@, provider_key: "fssn"@, channel: ProviderChannel::FanStudio, category: DisasterCategory::EarthquakeReport, group_id: "fanstudio-earthquake-report"@, group_label: "地震信息"@, label: "FSSN"@ }
    } else if i == 26 {
        SourceView { id: "fanstudio.fssn-cmt"@, provider_key: "fssn-cmt"@, channel: ProviderChannel::FanStudio, category: DisasterCategory::EarthquakeReport, group_id: "fanstudio-earthquake-report"@, group_label: "地震信息"@, label: "FSSN CMT"@ }
    } else if i == 27 {
        SourceView { id: "fanstudio.weatheralarm"@, provider_key: "weatheralarm"@, channel: ProviderChannel::FanStudio, category: DisasterCategory::WeatherWarning, group_id: "fanstudio-weather-warning"@, group_label: "气象预警"@, label: "中国气象局气象预警"@ }
    } else if i == 28 {
        SourceView { id: "fanstudio.tsunami"@, provider_key: "tsunami"@, channel: ProviderChannel::FanStudio, category: DisasterCategory::Tsunami, group_id: "fanstudio-tsunami"@, group_label: "海啸"@, label: "自然资源部海啸预警中心"@ }
    } else {
        SourceView { id: "fanstudio.typhoon"@, provider_key: "typhoon"@, channel: ProviderChannel::FanStudio, category: DisasterCategory::Typhoon, group_id: "fanstudio-typhoon"@, group_label: "台风"@, label: "中国气象局活跃台风"@ }
    }
}

/// Every registered source, in registry order.
pub open spec fn registry() -> Seq<SourceView> {
    Seq::new(registry_len(), |i: int| registry_entry(i))
}

/// The `i`-th registered source.
pub fn source_at(i: usize) -> (s: SourceDefinition)
    requires
        i < registry_len(),
    ensures
        s@ == registry()[i as int],
{
    match i {
        0 => SourceDefinition { id: "wolfx.jma_eew", provider_key: "jma_eew", channel: ProviderChannel::Wolfx, category: DisasterCategory::EarthquakeWarning, group_id: "wolfx-earthquake-warning", group_label: "Wolfx 地震预警", label: "Wolfx 日本气象厅" },
        1 => SourceDefinition { id: "wolfx.sc_eew", provider_key: "sc_eew", channel: ProviderChannel::Wolfx, category: DisasterCategory::EarthquakeWarning, group_id: "wolfx-earthquake-warning", group_label: "Wolfx 地震预警", label: "Wolfx 四川地震局" },
        2 => SourceDefinition { id: "wolfx.cenc_eew", provider_key: "cenc_eew", channel: ProviderChannel::Wolfx, category: DisasterCategory::EarthquakeWarning, group_id: "wolfx-earthquake-warning", group_label: "Wolfx 地震预警", label: "Wolfx 中国地震台网" },
        3 => SourceDefinition { id: "wolfx.fj_eew", provider_key: "fj_eew", channel: ProviderChannel::Wolfx, category: DisasterCategory::EarthquakeWarning, group_id: "wolfx-earthquake-warning", group_label: "Wolfx 地震预警", label: "Wolfx 福建地震局" },
        4 => SourceDefinition { id: "wolfx.cq_eew", provider_key: "cq_eew", channel: ProviderChannel::Wolfx, category: DisasterCategory::EarthquakeWarning, group_id: "wolfx-earthquake-warning", group_label: "Wolfx 地震预警", label: "Wolfx 重庆地震局" },
        5 => SourceDefinition { id: "fanstudio.cea", provider_key: "cea", channel: ProviderChannel::FanStudio, category: DisasterCategory::EarthquakeWarning, group_id: "fanstudio-earthquake-warning", group_label: "FAN Studio 地震预警", label: "中国地震预警网" },
        6 => SourceDefinition { id: "fanstudio.cea-pr", provider_key: "cea-pr", channel: ProviderChannel::FanStudio, category: DisasterCategory::EarthquakeWarning, group_id: "fanstudio-earthquake-warning", group_label: "FAN Studio 地震预警", label: "中国地震预警网省级网" },
        7 => SourceDefinition { id: "fanstudio.cwa-eew", provider_key: "cwa-eew", channel: ProviderChannel::FanStudio, category: DisasterCategory::EarthquakeWarning, group_id: "fanstudio-earthquake-warning", group_label: "FAN Studio 地震预警", label: "台湾气象署预警" },
        8 => SourceDefinition { id: "fanstudio.jma", provider_key: "jma", channel: ProviderChannel::FanStudio, category: DisasterCategory::EarthquakeWarning, group_id: "fanstudio-earthquake-warning", group_label: "FAN Studio 地震预警", label: "日本气象厅预警" },
        9 => SourceDefinition { id: "fanstudio.sa", provider_key: "sa", channel: ProviderChannel::FanStudio, category: DisasterCategory::EarthquakeWarning, group_id: "fanstudio-earthquake-warning", group_label: "FAN Studio 地震预警", label: "ShakeAlert" },
        10 => SourceDefinition { id: "fanstudio.kma-eew", provider_key: "kma-eew", channel: ProviderChannel::FanStudio, category: DisasterCategory::EarthquakeWarning, group_id: "fanstudio-earthquake-warning", group_label: "FAN Studio 地震预警", label: "韩国气象厅预警" },
        11 => SourceDefinition { id: "fanstudio.cenc", provider_key: "cenc", channel: ProviderChannel::FanStudio, category: DisasterCategory::EarthquakeReport, group_id: "fanstudio-earthquake-report", group_label: "地震信息", label: "中国地震台网测定" },
        12 => SourceDefinition { id: "fanstudio.ningxia", provider_key: "ningxia", channel: ProviderChannel::FanStudio, category: DisasterCategory::EarthquakeReport, group_id: "fanstudio-earthquake-report", group_label: "地震信息", label: "宁夏地震局" },
        13 => SourceDefinition { id: "fanstudio.guangxi", provider_key: "guangxi", channel: ProviderChannel::FanStudio, category: DisasterCategory::EarthquakeReport, group_id: "fanstudio-earthquake-report", group_label: "地震信息", label: "广西地震局" },
        14 => SourceDefinition { id: "fanstudio.shanxi", provider_key: "shanxi", channel: ProviderChannel::FanStudio, category: DisasterCategory::EarthquakeReport, group_id: "fanstudio-earthquake-report", group_label: "地震信息", label: "山西地震局" },
        15 => SourceDefinition { id: "fanstudio.beijing", provider_key: "beijing", channel: ProviderChannel::FanStudio, category: DisasterCategory::EarthquakeReport, group_id: "fanstudio-earthquake-report", group_label: "地震信息", label: "北京地震局" },
        16 => SourceDefinition { id: "fanstudio.yunnan", provider_key: "yunnan", channel: ProviderChannel::FanStudio, category: DisasterCategory::EarthquakeReport, group_id: "fanstudio-earthquake-report", group_label: "地震信息", label: "云南地震局" },
        17 => SourceDefinition { id: "fanstudio.cwa", provider_key: "cwa", channel: ProviderChannel::FanStudio, category: DisasterCategory::EarthquakeReport, group_id: "fanstudio-earthquake-report", group_label: "地震信息", label: "台湾气象署报告" },
        18 => SourceDefinition { id: "fanstudio.hko", provider_key: "hko", channel: ProviderChannel::FanStudio, category: DisasterCategory::EarthquakeReport, group_id: "fanstudio-earthquake-report", group_label: "地震信息", label: "香港天文台" },
        19 => SourceDefinition { id: "fanstudio.usgs", provider_key: "usgs", channel: ProviderChannel::FanStudio, category: DisasterCategory::EarthquakeReport, group_id: "fanstudio-earthquake-report", group_label: "地震信息", label: "USGS" },
        20 => SourceDefinition { id: "fanstudio.emsc", provider_key: "emsc", channel: ProviderChannel::FanStudio, category: DisasterCategory::EarthquakeReport, group_id: "fanstudio-earthquake-report", group_label: "地震信息", label: "EMSC" },
        21 => SourceDefinition { id: "fanstudio.bcsf", provider_key: "bcsf", channel: ProviderChannel::FanStudio, category: DisasterCategory::EarthquakeReport, group_id: "fanstudio-earthquake-report", group_label: "地震信息", label: "BCSF" },
        22 => SourceDefinition { id: "fanstudio.gfz", provider_key: "gfz", channel: ProviderChannel::FanStudio, category: DisasterCategory::EarthquakeReport, group_id: "fanstudio-earthquake-report", group_label: "地震信息", label: "GFZ" },
        23 => SourceDefinition { id: "fanstudio.usp", provider_key: "usp", channel: ProviderChannel::FanStudio, category: DisasterCategory::EarthquakeReport, group_id: "fanstudio-earthquake-report", group_label: "地震信息", label: "USP" },
        24 => SourceDefinition { id: "fanstudio.kma", provider_key: "kma", channel: ProviderChannel::FanStudio, category: DisasterCategory::EarthquakeReport, group_id: "fanstudio-earthquake-report", group_label: "地震信息", label: "韩国气象厅报告" },
        25 => SourceDefinition { id: "fanstudio.fssn", provider_key: "fssn", channel: ProviderChannel::FanStudio, category: DisasterCategory::EarthquakeReport, group_id: "fanstudio-earthquake-report", group_label: "地震信息", label: "FSSN" },
        26 => SourceDefinition { id: "fanstudio.fssn-cmt", provider_key: "fssn-cmt", channel: ProviderChannel::FanStudio, category: DisasterCategory::EarthquakeReport, group_id: "fanstudio-earthquake-report", group_label: "地震信息", label: "FSSN CMT" },
        27 => SourceDefinition { id: "fanstudio.weatheralarm", provider_key: "weatheralarm", channel: ProviderChannel::FanStudio, category: DisasterCategory::WeatherWarning, group_id: "fanstudio-weather-warning", group_label: "气象预警", label: "中国气象局气象预警" },
        28 => SourceDefinition { id: "fanstudio.tsunami", provider_key: "tsunami", channel: ProviderChannel::FanStudio, category: DisasterCategory::Tsunami, group_id: "fanstudio-tsunami", group_label: "海啸", label: "自然资源部海啸预警中心" },
        _ => SourceDefinition { id: "fanstudio.typhoon", provider_key: "typhoon", channel: ProviderChannel::FanStudio, category: DisasterCategory::Typhoon, group_id: "fanstudio-typhoon", group_label: "台风", label: "中国气象局活跃台风" },
    }
}

/// Number of registered sources.
pub fn source_count() -> (n: usize)
    ensures
        n == registry_len(),
{
    30
}


/// No two registered sources share an identifier.
pub proof fn lemma_registry_ids_unique()
    ensures
        forall|i: int, j: int|
            0 <= i < registry_len() && 0 <= j < registry_len() && i != j ==> #[trigger] registry()[i].id
                != #[trigger] registry()[j].id,
{
    reveal_strlit("wolfx.jma_eew");
    reveal_strlit("wolfx.sc_eew");
    reveal_strlit("wolfx.cenc_eew");
    reveal_strlit("wolfx.fj_eew");
    reveal_strlit("wolfx.cq_eew");
    reveal_strlit("fanstudio.cea");
    reveal_strlit("fanstudio.cea-pr");
    reveal_strlit("fanstudio.cwa-eew");
    reveal_strlit("fanstudio.jma");
    reveal_strlit("fanstudio.sa");
    reveal_strlit("fanstudio.kma-eew");
    reveal_strlit("fanstudio.cenc");
    reveal_strlit("fanstudio.ningxia");
    reveal_strlit("fanstudio.guangxi");
    reveal_strlit("fanstudio.shanxi");
    reveal_strlit("fanstudio.beijing");
    reveal_strlit("fanstudio.yunnan");
    reveal_strlit("fanstudio.cwa");
    reveal_strlit("fanstudio.hko");
    reveal_strlit("fanstudio.usgs");
    reveal_strlit("fanstudio.emsc");
    reveal_strlit("fanstudio.bcsf");
    reveal_strlit("fanstudio.gfz");
    reveal_strlit("fanstudio.usp");
    reveal_strlit("fanstudio.kma");
    reveal_strlit("fanstudio.fssn");
    reveal_strlit("fanstudio.fssn-cmt");
    reveal_strlit("fanstudio.weatheralarm");
    reveal_strlit("fanstudio.tsunami");
    reveal_strlit("fanstudio.typhoon");
    assert(registry_entry(0).id.len() != registry_entry(1).id.len());
    assert(registry_entry(0).id.len() != registry_entry(2).id.len());
    assert(registry_entry(0).id.len() != registry_entry(3).id.len());
    assert(registry_entry(0).id.len() != registry_entry(4).id.len());
    assert(registry_entry(0).id[0] != registry_entry(5).id[0]);
    assert(registry_entry(0).id.len() != registry_entry(6).id.len());
    assert(registry_entry(0).id.len() != registry_entry(7).id.len());
    assert(registry_entry(0).id[0] != registry_entry(8).id[0]);
    assert(registry_entry(0).id.len() != registry_entry(9).id.len());
    assert(registry_entry(0).id.len() != registry_entry(10).id.len());
    assert(registry_entry(0).id.len() != registry_entry(11).id.len());
    assert(registry_entry(0).id.len() != registry_entry(12).id.len());
    assert(registry_entry(0).id.len() != registry_entry(13).id.len());
    assert(registry_entry(0).id.len() != registry_entry(14).id.len());
    assert(registry_entry(0).id.len() != registry_entry(15).id.len());
    assert(registry_entry(0).id.len() != registry_entry(16).id.len());
    assert(registry_entry(0).id[0] != registry_entry(17).id[0]);
    assert(registry_entry(0).id[0] != registry_entry(18).id[0]);
    assert(registry_entry(0).id.len() != registry_entry(19).id.len());
    assert(registry_entry(0).id.len() != registry_entry(20).id.len());
    assert(registry_entry(0).id.len() != registry_entry(21).id.len());
    assert(registry_entry(0).id[0] != registry_entry(22).id[0]);
    assert(registry_entry(0).id[0] != registry_entry(23).id[0]);
    assert(registry_entry(0).id[0] != registry_entry(24).id[0]);
    assert(registry_entry(0).id.len() != registry_entry(25).id.len());
    assert(registry_entry(0).id.len() != registry_entry(26).id.len());
    assert(registry_entry(0).id.len() != registry_entry(27).id.len());
    assert(registry_entry(0).id.len() != registry_entry(28).id.len());
    assert(registry_entry(0).id.len() != registry_entry(29).id.len());
    assert(registry_entry(1).id.len() != registry_entry(2).id.len());
    assert(registry_entry(1).id[6] != registry_entry(3).id[6]);
    assert(registry_entry(1).id[6] != registry_entry(4).id[6]);
    assert(registry_entry(1).id.len() != registry_entry(5).id.len());
    assert(registry_entry(1).id.len() != registry_entry(6).id.len());
    assert(registry_entry(1).id.len() != registry_entry(7).id.len());
    assert(registry_entry(1).id.len() != registry_entry(8).id.len());
    assert(registry_entry(1).id[0] != registry_entry(9).id[0]);
    assert(registry_entry(1).id.len() != registry_entry(10).id.len());
    assert(registry_entry(1).id.len() != registry_entry(11).id.len());
    assert(registry_entry(1).id.len() != registry_entry(12).id.len());
    assert(registry_entry(1).id.len() != registry_entry(13).id.len());
    assert(registry_entry(1).id.len() != registry_entry(14).id.len());
    assert(registry_entry(1).id.len() != registry_entry(15).id.len());
    assert(registry_entry(1).id.len() != registry_entry(16).id.len());
    assert(registry_entry(1).id.len() != registry_entry(17).id.len());
    assert(registry_entry(1).id.len() != registry_entry(18).id.len());
    assert(registry_entry(1).id.len() != registry_entry(19).id.len());
    assert(registry_entry(1).id.len() != registry_entry(20).id.len());
    assert(registry_entry(1).id.len() != registry_entry(21).id.len());
    assert(registry_entry(1).id.len() != registry_entry(22).id.len());
    assert(registry_entry(1).id.len() != registry_entry(23).id.len());
    assert(registry_entry(1).id.len() != registry_entry(24).id.len());
    assert(registry_entry(1).id.len() != registry_entry(25).id.len());
    assert(registry_entry(1).id.len() != registry_entry(26).id.len());
    assert(registry_entry(1).id.len() != registry_entry(27).id.len());
    assert(registry_entry(1).id.len() != registry_entry(28).id.len());
    assert(registry_entry(1).id.len() != registry_entry(29).id.len());
    assert(registry_entry(2).id.len() != registry_entry(3).id.len());
    assert(registry_entry(2).id.len() != registry_entry(4).id.len());
    assert(registry_entry(2).id.len() != registry_entry(5).id.len());
    assert(registry_entry(2).id.len() != registry_entry(6).id.len());
    assert(registry_entry(2).id.len() != registry_entry(7).id.len());
    assert(registry_entry(2).id.len() != registry_entry(8).id.len());
    assert(registry_entry(2).id.len() != registry_entry(9).id.len());
    assert(registry_entry(2).id.len() != registry_entry(10).id.len());
    assert(registry_entry(2).id[0] != registry_entry(11).id[0]);
    assert(registry_entry(2).id.len() != registry_entry(12).id.len());
    assert(registry_entry(2).id.len() != registry_entry(13).id.len());
    assert(registry_entry(2).id.len() != registry_entry(14).id.len());
    assert(registry_entry(2).id.len() != registry_entry(15).id.len());
    assert(registry_entry(2).id.len() != registry_entry(16).id.len());
    assert(registry_entry(2).id.len() != registry_entry(17).id.len());
    assert(registry_entry(2).id.len() != registry_entry(18).id.len());
    assert(registry_entry(2).id[0] != registry_entry(19).id[0]);
    assert(registry_entry(2).id[0] != registry_entry(20).id[0]);
    assert(registry_entry(2).id[0] != registry_entry(21).id[0]);
    assert(registry_entry(2).id.len() != registry_entry(22).id.len());
    assert(registry_entry(2).id.len() != registry_entry(23).id.len());
    assert(registry_entry(2).id.len() != registry_entry(24).id.len());
    assert(registry_entry(2).id[0] != registry_entry(25).id[0]);
    assert(registry_entry(2).id.len() != registry_entry(26).id.len());
    assert(registry_entry(2).id.len() != registry_entry(27).id.len());
    assert(registry_entry(2).id.len() != registry_entry(28).id.len());
    assert(registry_entry(2).id.len() != registry_entry(29).id.len());
    assert(registry_entry(3).id[6] != registry_entry(4).id[6]);
    assert(registry_entry(3).id.len() != registry_entry(5).id.len());
    assert(registry_entry(3).id.len() != registry_entry(6).id.len());
    assert(registry_entry(3).id.len() != registry_entry(7).id.len());
    assert(registry_entry(3).id.len() != registry_entry(8).id.len());
    assert(registry_entry(3).id[0] != registry_entry(9).id[0]);
    assert(registry_entry(3).id.len() != registry_entry(10).id.len());
    assert(registry_entry(3).id.len() != registry_entry(11).id.len());
    assert(registry_entry(3).id.len() != registry_entry(12).id.len());
    assert(registry_entry(3).id.len() != registry_entry(13).id.len());
    assert(registry_entry(3).id.len() != registry_entry(14).id.len());
    assert(registry_entry(3).id.len() != registry_entry(15).id.len());
    assert(registry_entry(3).id.len() != registry_entry(16).id.len());
    assert(registry_entry(3).id.len() != registry_entry(17).id.len());
    assert(registry_entry(3).id.len() != registry_entry(18).id.len());
    assert(registry_entry(3).id.len() != registry_entry(19).id.len());
    assert(registry_entry(3).id.len() != registry_entry(20).id.len());
    assert(registry_entry(3).id.len() != registry_entry(21).id.len());
    assert(registry_entry(3).id.len() != registry_entry(22).id.len());
    assert(registry_entry(3).id.len() != registry_entry(23).id.len());
    assert(registry_entry(3).id.len() != registry_entry(24).id.len());
    assert(registry_entry(3).id.len() != registry_entry(25).id.len());
    assert(registry_entry(3).id.len() != registry_entry(26).id.len());
    assert(registry_entry(3).id.len() != registry_entry(27).id.len());
    assert(registry_entry(3).id.len() != registry_entry(28).id.len());
    assert(registry_entry(3).id.len() != registry_entry(29).id.len());
    assert(registry_entry(4).id.len() != registry_entry(5).id.len());
    assert(registry_entry(4).id.len() != registry_entry(6).id.len());
    assert(registry_entry(4).id.len() != registry_entry(7).id.len());
    assert(registry_entry(4).id.len() != registry_entry(8).id.len());
    assert(registry_entry(4).id[0] != registry_entry(9).id[0]);
    assert(registry_entry(4).id.len() != registry_entry(10).id.len());
    assert(registry_entry(4).id.len() != registry_entry(11).id.len());
    assert(registry_entry(4).id.len() != registry_entry(12).id.len());
    assert(registry_entry(4).id.len() != registry_entry(13).id.len());
    assert(registry_entry(4).id.len() != registry_entry(14).id.len());
    assert(registry_entry(4).id.len() != registry_entry(15).id.len());
    assert(registry_entry(4).id.len() != registry_entry(16).id.len());
    assert(registry_entry(4).id.len() != registry_entry(17).id.len());
    assert(registry_entry(4).id.len() != registry_entry(18).id.len());
    assert(registry_entry(4).id.len() != registry_entry(19).id.len());
    assert(registry_entry(4).id.len() != registry_entry(20).id.len());
    assert(registry_entry(4).id.len() != registry_entry(21).id.len());
    assert(registry_entry(4).id.len() != registry_entry(22).id.len());
    assert(registry_entry(4).id.len() != registry_entry(23).id.len());
    assert(registry_entry(4).id.len() != registry_entry(24).id.len());
    assert(registry_entry(4).id.len() != registry_entry(25).id.len());
    assert(registry_entry(4).id.len() != registry_entry(26).id.len());
    assert(registry_entry(4).id.len() != registry_entry(27).id.len());
    assert(registry_entry(4).id.len() != registry_entry(28).id.len());
    assert(registry_entry(4).id.len() != registry_entry(29).id.len());
    assert(registry_entry(5).id.len() != registry_entry(6).id.len());
    assert(registry_entry(5).id.len() != registry_entry(7).id.len());
    assert(registry_entry(5).id[10] != registry_entry(8).id[10]);
    assert(registry_entry(5).id.len() != registry_entry(9).id.len());
    assert(registry_entry(5).id.len() != registry_entry(10).id.len());
    assert(registry_entry(5).id.len() != registry_entry(11).id.len());
    assert(registry_entry(5).id.len() != registry_entry(12).id.len());
    assert(registry_entry(5).id.len() != registry_entry(13).id.len());
    assert(registry_entry(5).id.len() != registry_entry(14).id.len());
    assert(registry_entry(5).id.len() != registry_entry(15).id.len());
    assert(registry_entry(5).id.len() != registry_entry(16).id.len());
    assert(registry_entry(5).id[11] != registry_entry(17).id[11]);
    assert(registry_entry(5).id[10] != registry_entry(18).id[10]);
    assert(registry_entry(5).id.len() != registry_entry(19).id.len());
    assert(registry_entry(5).id.len() != registry_entry(20).id.len());
    assert(registry_entry(5).id.len() != registry_entry(21).id.len());
    assert(registry_entry(5).id[10] != registry_entry(22).id[10]);
    assert(registry_entry(5).id[10] != registry_entry(23).id[10]);
    assert(registry_entry(5).id[10] != registry_entry(24).id[10]);
    assert(registry_entry(5).id.len() != registry_entry(25).id.len());
    assert(registry_entry(5).id.len() != registry_entry(26).id.len());
    assert(registry_entry(5).id.len() != registry_entry(27).id.len());
    assert(registry_entry(5).id.len() != registry_entry(28).id.len());
    assert(registry_entry(5).id.len() != registry_entry(29).id.len());
    assert(registry_entry(6).id.len() != registry_entry(7).id.len());
    assert(registry_entry(6).id.len() != registry_entry(8).id.len());
    assert(registry_entry(6).id.len() != registry_entry(9).id.len());
    assert(registry_entry(6).id.len() != registry_entry(10).id.len());
    assert(registry_entry(6).id.len() != registry_entry(11).id.len());
    assert(registry_entry(6).id.len() != registry_entry(12).id.len());
    assert(registry_entry(6).id.len() != registry_entry(13).id.len());
    assert(registry_entry(6).id[10] != registry_entry(14).id[10]);
    assert(registry_entry(6).id.len() != registry_entry(15).id.len());
    assert(registry_entry(6).id[10] != registry_entry(16).id[10]);
    assert(registry_entry(6).id.len() != registry_entry(17).id.len());
    assert(registry_entry(6).id.len() != registry_entry(18).id.len());
    assert(registry_entry(6).id.len() != registry_entry(19).id.len());
    assert(registry_entry(6).id.len() != registry_entry(20).id.len());
    assert(registry_entry(6).id.len() != registry_entry(21).id.len());
    assert(registry_entry(6).id.len() != registry_entry(22).id.len());
    assert(registry_entry(6).id.len() != registry_entry(23).id.len());
    assert(registry_entry(6).id.len() != registry_entry(24).id.len());
    assert(registry_entry(6).id.len() != registry_entry(25).id.len());
    assert(registry_entry(6).id.len() != registry_entry(26).id.len());
    assert(registry_entry(6).id.len() != registry_entry(27).id.len());
    assert(registry_entry(6).id.len() != registry_entry(28).id.len());
    assert(registry_entry(6).id.len() != registry_entry(29).id.len());
    assert(registry_entry(7).id.len() != registry_entry(8).id.len());
    assert(registry_entry(7).id.len() != registry_entry(9).id.len());
    assert(registry_entry(7).id[10] != registry_entry(10).id[10]);
    assert(registry_entry(7).id.len() != registry_entry(11).id.len());
    assert(registry_entry(7).id[10] != registry_entry(12).id[10]);
    assert(registry_entry(7).id[10] != registry_entry(13).id[10]);
    assert(registry_entry(7).id.len() != registry_entry(14).id.len());
    assert(registry_entry(7).id[10] != registry_entry(15).id[10]);
    assert(registry_entry(7).id.len() != registry_entry(16).id.len());
    assert(registry_entry(7).id.len() != registry_entry(17).id.len());
    assert(registry_entry(7).id.len() != registry_entry(18).id.len());
    assert(registry_entry(7).id.len() != registry_entry(19).id.len());
    assert(registry_entry(7).id.len() != registry_entry(20).id.len());
    assert(registry_entry(7).id.len() != registry_entry(21).id.len());
    assert(registry_entry(7).id.len() != registry_entry(22).id.len());
    assert(registry_entry(7).id.len() != registry_entry(23).id.len());
    assert(registry_entry(7).id.len() != registry_entry(24).id.len());
    assert(registry_entry(7).id.len() != registry_entry(25).id.len());
    assert(registry_entry(7).id.len() != registry_entry(26).id.len());
    assert(registry_entry(7).id.len() != registry_entry(27).id.len());
    assert(registry_entry(7).id[10] != registry_entry(28).id[10]);
    assert(registry_entry(7).id[10] != registry_entry(29).id[10]);
    assert(registry_entry(8).id.len() != registry_entry(9).id.len());
    assert(registry_entry(8).id.len() != registry_entry(10).id.len());
    assert(registry_entry(8).id.len() != registry_entry(11).id.len());
    assert(registry_entry(8).id.len() != registry_entry(12).id.len());
    assert(registry_entry(8).id.len() != registry_entry(13).id.len());
    assert(registry_entry(8).id.len() != registry_entry(14).id.len());
    assert(registry_entry(8).id.len() != registry_entry(15).id.len());
    assert(registry_entry(8).id.len() != registry_entry(16).id.len());
    assert(registry_entry(8).id[10] != registry_entry(17).id[10]);
    assert(registry_entry(8).id[10] != registry_entry(18).id[10]);
    assert(registry_entry(8).id.len() != registry_entry(19).id.len());
    assert(registry_entry(8).id.len() != registry_entry(20).id.len());
    assert(registry_entry(8).id.len() != registry_entry(21).id.len());
    assert(registry_entry(8).id[10] != registry_entry(22).id[10]);
    assert(registry_entry(8).id[10] != registry_entry(23).id[10]);
    assert(registry_entry(8).id[10] != registry_entry(24).id[10]);
    assert(registry_entry(8).id.len() != registry_entry(25).id.len());
    assert(registry_entry(8).id.len() != registry_entry(26).id.len());
    assert(registry_entry(8).id.len() != registry_entry(27).id.len());
    assert(registry_entry(8).id.len() != registry_entry(28).id.len());
    assert(registry_entry(8).id.len() != registry_entry(29).id.len());
    assert(registry_entry(9).id.len() != registry_entry(10).id.len());
    assert(registry_entry(9).id.len() != registry_entry(11).id.len());
    assert(registry_entry(9).id.len() != registry_entry(12).id.len());
    assert(registry_entry(9).id.len() != registry_entry(13).id.len());
    assert(registry_entry(9).id.len() != registry_entry(14).id.len());
    assert(registry_entry(9).id.len() != registry_entry(15).id.len());
    assert(registry_entry(9).id.len() != registry_entry(16).id.len());
    assert(registry_entry(9).id.len() != registry_entry(17).id.len());
    assert(registry_entry(9).id.len() != registry_entry(18).id.len());
    assert(registry_entry(9).id.len() != registry_entry(19).id.len());
    assert(registry_entry(9).id.len() != registry_entry(20).id.len());
    assert(registry_entry(9).id.len() != registry_entry(21).id.len());
    assert(registry_entry(9).id.len() != registry_entry(22).id.len());
    assert(registry_entry(9).id.len() != registry_entry(23).id.len());
    assert(registry_entry(9).id.len() != registry_entry(24).id.len());
    assert(registry_entry(9).id.len() != registry_entry(25).id.len());
    assert(registry_entry(9).id.len() != registry_entry(26).id.len());
    assert(registry_entry(9).id.len() != registry_entry(27).id.len());
    assert(registry_entry(9).id.len() != registry_entry(28).id.len());
    assert(registry_entry(9).id.len() != registry_entry(29).id.len());
    assert(registry_entry(10).id.len() != registry_entry(11).id.len());
    assert(registry_entry(10).id[10] != registry_entry(12).id[10]);
    assert(registry_entry(10).id[10] != registry_entry(13).id[10]);
    assert(registry_entry(10).id.len() != registry_entry(14).id.len());
    assert(registry_entry(10).id[10] != registry_entry(15).id[10]);
    assert(registry_entry(10).id.len() != registry_entry(16).id.len());
    assert(registry_entry(10).id.len() != registry_entry(17).id.len());
    assert(registry_entry(10).id.len() != registry_entry(18).id.len());
    assert(registry_entry(10).id.len() != registry_entry(19).id.len());
    assert(registry_entry(10).id.len() != registry_entry(20).id.len());
    assert(registry_entry(10).id.len() != registry_entry(21).id.len());
    assert(registry_entry(10).id.len() != registry_entry(22).id.len());
    assert(registry_entry(10).id.len() != registry_entry(23).id.len());
    assert(registry_entry(10).id.len() != registry_entry(24).id.len());
    assert(registry_entry(10).id.len() != registry_entry(25).id.len());
    assert(registry_entry(10).id.len() != registry_entry(26).id.len());
    assert(registry_entry(10).id.len() != registry_entry(27).id.len());
    assert(registry_entry(10).id[10] != registry_entry(28).id[10]);
    assert(registry_entry(10).id[10] != registry_entry(29).id[10]);
    assert(registry_entry(11).id.len() != registry_entry(12).id.len());
    assert(registry_entry(11).id.len() != registry_entry(13).id.len());
    assert(registry_entry(11).id.len() != registry_entry(14).id.len());
    assert(registry_entry(11).id.len() != registry_entry(15).id.len());
    assert(registry_entry(11).id.len() != registry_entry(16).id.len());
    assert(registry_entry(11).id.len() != registry_entry(17).id.len());
    assert(registry_entry(11).id.len() != registry_entry(18).id.len());
    assert(registry_entry(11).id[10] != registry_entry(19).id[10]);
    assert(registry_entry(11).id[10] != registry_entry(20).id[10]);
    assert(registry_entry(11).id[10] != registry_entry(21).id[10]);
    assert(registry_entry(11).id.len() != registry_entry(22).id.len());
    assert(registry_entry(11).id.len() != registry_entry(23).id.len());
    assert(registry_entry(11).id.len() != registry_entry(24).id.len());
    assert(registry_entry(11).id[10] != registry_entry(25).id[10]);
    assert(registry_entry(11).id.len() != registry_entry(26).id.len());
    assert(registry_entry(11).id.len() != registry_entry(27).id.len());
    assert(registry_entry(11).id.len() != registry_entry(28).id.len());
    assert(registry_entry(11).id.len() != registry_entry(29).id.len());
    assert(registry_entry(12).id[10] != registry_entry(13).id[10]);
    assert(registry_entry(12).id.len() != registry_entry(14).id.len());
    assert(registry_entry(12).id[10] != registry_entry(15).id[10]);
    assert(registry_entry(12).id.len() != registry_entry(16).id.len());
    assert(registry_entry(12).id.len() != registry_entry(17).id.len());
    assert(registry_entry(12).id.len() != registry_entry(18).id.len());
    assert(registry_entry(12).id.len() != registry_entry(19).id.len());
    assert(registry_entry(12).id.len() != registry_entry(20).id.len());
    assert(registry_entry(12).id.len() != registry_entry(21).id.len());
    assert(registry_entry(12).id.len() != registry_entry(22).id.len());
    assert(registry_entry(12).id.len() != registry_entry(23).id.len());
    assert(registry_entry(12).id.len() != registry_entry(24).id.len());
    assert(registry_entry(12).id.len() != registry_entry(25).id.len());
    assert(registry_entry(12).id.len() != registry_entry(26).id.len());
    assert(registry_entry(12).id.len() != registry_entry(27).id.len());
    assert(registry_entry(12).id[10] != registry_entry(28).id[10]);
    assert(registry_entry(12).id[10] != registry_entry(29).id[10]);
    assert(registry_entry(13).id.len() != registry_entry(14).id.len());
    assert(registry_entry(13).id[10] != registry_entry(15).id[10]);
    assert(registry_entry(13).id.len() != registry_entry(16).id.len());
    assert(registry_entry(13).id.len() != registry_entry(17).id.len());
    assert(registry_entry(13).id.len() != registry_entry(18).id.len());
    assert(registry_entry(13).id.len() != registry_entry(19).id.len());
    assert(registry_entry(13).id.len() != registry_entry(20).id.len());
    assert(registry_entry(13).id.len() != registry_entry(21).id.len());
    assert(registry_entry(13).id.len() != registry_entry(22).id.len());
    assert(registry_entry(13).id.len() != registry_entry(23).id.len());
    assert(registry_entry(13).id.len() != registry_entry(24).id.len());
    assert(registry_entry(13).id.len() != registry_entry(25).id.len());
    assert(registry_entry(13).id.len() != registry_entry(26).id.len());
    assert(registry_entry(13).id.len() != registry_entry(27).id.len());
    assert(registry_entry(13).id[10] != registry_entry(28).id[10]);
    assert(registry_entry(13).id[10] != registry_entry(29).id[10]);
    assert(registry_entry(14).id.len() != registry_entry(15).id.len());
    assert(registry_entry(14).id[10] != registry_entry(16).id[10]);
    assert(registry_entry(14).id.len() != registry_entry(17).id.len());
    assert(registry_entry(14).id.len() != registry_entry(18).id.len());
    assert(registry_entry(14).id.len() != registry_entry(19).id.len());
    assert(registry_entry(14).id.len() != registry_entry(20).id.len());
    assert(registry_entry(14).id.len() != registry_entry(21).id.len());
    assert(registry_entry(14).id.len() != registry_entry(22).id.len());
    assert(registry_entry(14).id.len() != registry_entry(23).id.len());
    assert(registry_entry(14).id.len() != registry_entry(24).id.len());
    assert(registry_entry(14).id.len() != registry_entry(25).id.len());
    assert(registry_entry(14).id.len() != registry_entry(26).id.len());
    assert(registry_entry(14).id.len() != registry_entry(27).id.len());
    assert(registry_entry(14).id.len() != registry_entry(28).id.len());
    assert(registry_entry(14).id.len() != registry_entry(29).id.len());
    assert(registry_entry(15).id.len() != registry_entry(16).id.len());
    assert(registry_entry(15).id.len() != registry_entry(17).id.len());
    assert(registry_entry(15).id.len() != registry_entry(18).id.len());
    assert(registry_entry(15).id.len() != registry_entry(19).id.len());
    assert(registry_entry(15).id.len() != registry_entry(20).id.len());
    assert(registry_entry(15).id.len() != registry_entry(21).id.len());
    assert(registry_entry(15).id.len() != registry_entry(22).id.len());
    assert(registry_entry(15).id.len() != registry_entry(23).id.len());
    assert(registry_entry(15).id.len() != registry_entry(24).id.len());
    assert(registry_entry(15).id.len() != registry_entry(25).id.len());
    assert(registry_entry(15).id.len() != registry_entry(26).id.len());
    assert(registry_entry(15).id.len() != registry_entry(27).id.len());
    assert(registry_entry(15).id[10] != registry_entry(28).id[10]);
    assert(registry_entry(15).id[10] != registry_entry(29).id[10]);
    assert(registry_entry(16).id.len() != registry_entry(17).id.len());
    assert(registry_entry(16).id.len() != registry_entry(18).id.len());
    assert(registry_entry(16).id.len() != registry_entry(19).id.len());
    assert(registry_entry(16).id.len() != registry_entry(20).id.len());
    assert(registry_entry(16).id.len() != registry_entry(21).id.len());
    assert(registry_entry(16).id.len() != registry_entry(22).id.len());
    assert(registry_entry(16).id.len() != registry_entry(23).id.len());
    assert(registry_entry(16).id.len() != registry_entry(24).id.len());
    assert(registry_entry(16).id.len() != registry_entry(25).id.len());
    assert(registry_entry(16).id.len() != registry_entry(26).id.len());
    assert(registry_entry(16).id.len() != registry_entry(27).id.len());
    assert(registry_entry(16).id.len() != registry_entry(28).id.len());
    assert(registry_entry(16).id.len() != registry_entry(29).id.len());
    assert(registry_entry(17).id[10] != registry_entry(18).id[10]);
    assert(registry_entry(17).id.len() != registry_entry(19).id.len());
    assert(registry_entry(17).id.len() != registry_entry(20).id.len());
    assert(registry_entry(17).id.len() != registry_entry(21).id.len());
    assert(registry_entry(17).id[10] != registry_entry(22).id[10]);
    assert(registry_entry(17).id[10] != registry_entry(23).id[10]);
    assert(registry_entry(17).id[10] != registry_entry(24).id[10]);
    assert(registry_entry(17).id.len() != registry_entry(25).id.len());
    assert(registry_entry(17).id.len() != registry_entry(26).id.len());
    assert(registry_entry(17).id.len() != registry_entry(27).id.len());
    assert(registry_entry(17).id.len() != registry_entry(28).id.len());
    assert(registry_entry(17).id.len() != registry_entry(29).id.len());
    assert(registry_entry(18).id.len() != registry_entry(19).id.len());
    assert(registry_entry(18).id.len() != registry_entry(20).id.len());
    assert(registry_entry(18).id.len() != registry_entry(21).id.len());
    assert(registry_entry(18).id[10] != registry_entry(22).id[10]);
    assert(registry_entry(18).id[10] != registry_entry(23).id[10]);
    assert(registry_entry(18).id[10] != registry_entry(24).id[10]);
    assert(registry_entry(18).id.len() != registry_entry(25).id.len());
    assert(registry_entry(18).id.len() != registry_entry(26).id.len());
    assert(registry_entry(18).id.len() != registry_entry(27).id.len());
    assert(registry_entry(18).id.len() != registry_entry(28).id.len());
    assert(registry_entry(18).id.len() != registry_entry(29).id.len());
    assert(registry_entry(19).id[10] != registry_entry(20).id[10]);
    assert(registry_entry(19).id[10] != registry_entry(21).id[10]);
    assert(registry_entry(19).id.len() != registry_entry(22).id.len());
    assert(registry_entry(19).id.len() != registry_entry(23).id.len());
    assert(registry_entry(19).id.len() != registry_entry(24).id.len());
    assert(registry_entry(19).id[10] != registry_entry(25).id[10]);
    assert(registry_entry(19).id.len() != registry_entry(26).id.len());
    assert(registry_entry(19).id.len() != registry_entry(27).id.len());
    assert(registry_entry(19).id.len() != registry_entry(28).id.len());
    assert(registry_entry(19).id.len() != registry_entry(29).id.len());
    assert(registry_entry(20).id[10] != registry_entry(21).id[10]);
    assert(registry_entry(20).id.len() != registry_entry(22).id.len());
    assert(registry_entry(20).id.len() != registry_entry(23).id.len());
    assert(registry_entry(20).id.len() != registry_entry(24).id.len());
    assert(registry_entry(20).id[10] != registry_entry(25).id[10]);
    assert(registry_entry(20).id.len() != registry_entry(26).id.len());
    assert(registry_entry(20).id.len() != registry_entry(27).id.len());
    assert(registry_entry(20).id.len() != registry_entry(28).id.len());
    assert(registry_entry(20).id.len() != registry_entry(29).id.len());
    assert(registry_entry(21).id.len() != registry_entry(22).id.len());
    assert(registry_entry(21).id.len() != registry_entry(23).id.len());
    assert(registry_entry(21).id.len() != registry_entry(24).id.len());
    assert(registry_entry(21).id[10] != registry_entry(25).id[10]);
    assert(registry_entry(21).id.len() != registry_entry(26).id.len());
    assert(registry_entry(21).id.len() != registry_entry(27).id.len());
    assert(registry_entry(21).id.len() != registry_entry(28).id.len());
    assert(registry_entry(21).id.len() != registry_entry(29).id.len());
    assert(registry_entry(22).id[10] != registry_entry(23).id[10]);
    assert(registry_entry(22).id[10] != registry_entry(24).id[10]);
    assert(registry_entry(22).id.len() != registry_entry(25).id.len());
    assert(registry_entry(22).id.len() != registry_entry(26).id.len());
    assert(registry_entry(22).id.len() != registry_entry(27).id.len());
    assert(registry_entry(22).id.len() != registry_entry(28).id.len());
    assert(registry_entry(22).id.len() != registry_entry(29).id.len());
    assert(registry_entry(23).id[10] != registry_entry(24).id[10]);
    assert(registry_entry(23).id.len() != registry_entry(25).id.len());
    assert(registry_entry(23).id.len() != registry_entry(26).id.len());
    assert(registry_entry(23).id.len() != registry_entry(27).id.len());
    assert(registry_entry(23).id.len() != registry_entry(28).id.len());
    assert(registry_entry(23).id.len() != registry_entry(29).id.len());
    assert(registry_entry(24).id.len() != registry_entry(25).id.len());
    assert(registry_entry(24).id.len() != registry_entry(26).id.len());
    assert(registry_entry(24).id.len() != registry_entry(27).id.len());
    assert(registry_entry(24).id.len() != registry_entry(28).id.len());
    assert(registry_entry(24).id.len() != registry_entry(29).id.len());
    assert(registry_entry(25).id.len() != registry_entry(26).id.len());
    assert(registry_entry(25).id.len() != registry_entry(27).id.len());
    assert(registry_entry(25).id.len() != registry_entry(28).id.len());
    assert(registry_entry(25).id.len() != registry_entry(29).id.len());
    assert(registry_entry(26).id.len() != registry_entry(27).id.len());
    assert(registry_entry(26).id.len() != registry_entry(28).id.len());
    assert(registry_entry(26).id.len() != registry_entry(29).id.len());
    assert(registry_entry(27).id.len() != registry_entry(28).id.len());
    assert(registry_entry(27).id.len() != registry_entry(29).id.len());
    assert(registry_entry(28).id[11] != registry_entry(29).id[11]);
    assert forall|i: int, j: int|
        0 <= i < registry_len() && 0 <= j < registry_len() && i != j implies registry()[i].id
            != registry()[j].id by {
        assert(registry()[i] == registry_entry(i));
        assert(registry()[j] == registry_entry(j));
    }
}

/// No two registered sources of one channel share a provider key.
pub proof fn lemma_registry_provider_keys_unique()
    ensures
        forall|i: int, j: int|
            0 <= i < registry_len() && 0 <= j < registry_len() && i != j ==> (#[trigger] registry()[i]).channel
                != (#[trigger] registry()[j]).channel || registry()[i].provider_key != registry()[j].provider_key,
{
    reveal_strlit("bcsf");
    reveal_strlit("beijing");
    reveal_strlit("cea");
    reveal_strlit("cea-pr");
    reveal_strlit("cenc");
    reveal_strlit("cenc_eew");
    reveal_strlit("cq_eew");
    reveal_strlit("cwa");
    reveal_strlit("cwa-eew");
    reveal_strlit("emsc");
    reveal_strlit("fj_eew");
    reveal_strlit("fssn");
    reveal_strlit("fssn-cmt");
    reveal_strlit("gfz");
    reveal_strlit("guangxi");
    reveal_strlit("hko");
    reveal_strlit("jma");
    reveal_strlit("jma_eew");
    reveal_strlit("kma");
    reveal_strlit("kma-eew");
    reveal_strlit("ningxia");
    reveal_strlit("sa");
    reveal_strlit("sc_eew");
    reveal_strlit("shanxi");
    reveal_strlit("tsunami");
    reveal_strlit("typhoon");
    reveal_strlit("usgs");
    reveal_strlit("usp");
    reveal_strlit("weatheralarm");
    reveal_strlit("yunnan");
    assert(registry_entry(0).provider_key.len() != registry_entry(1).provider_key.len());
    assert(registry_entry(0).provider_key.len() != registry_entry(2).provider_key.len());
    assert(registry_entry(0).provider_key.len() != registry_entry(3).provider_key.len());
    assert(registry_entry(0).provider_key.len() != registry_entry(4).provider_key.len());
    assert(registry_entry(1).provider_key.len() != registry_entry(2).provider_key.len());
    assert(registry_entry(1).provider_key[0] != registry_entry(3).provider_key[0]);
    assert(registry_entry(1).provider_key[0] != registry_entry(4).provider_key[0]);
    assert(registry_entry(2).provider_key.len() != registry_entry(3).provider_key.len());
    assert(registry_entry(2).provider_key.len() != registry_entry(4).provider_key.len());
    assert(registry_entry(3).provider_key[0] != registry_entry(4).provider_key[0]);
    assert(registry_entry(5).provider_key.len() != registry_entry(6).provider_key.len());
    assert(registry_entry(5).provider_key.len() != registry_entry(7).provider_key.len());
    assert(registry_entry(5).provider_key[0] != registry_entry(8).provider_key[0]);
    assert(registry_entry(5).provider_key.len() != registry_entry(9).provider_key.len());
    assert(registry_entry(5).provider_key.len() != registry_entry(10).provider_key.len());
    assert(registry_entry(5).provider_key.len() != registry_entry(11).provider_key.len());
    assert(registry_entry(5).provider_key.len() != registry_entry(12).provider_key.len());
    assert(registry_entry(5).provider_key.len() != registry_entry(13).provider_key.len());
    assert(registry_entry(5).provider_key.len() != registry_entry(14).provider_key.len());
    assert(registry_entry(5).provider_key.len() != registry_entry(15).provider_key.len());
    assert(registry_entry(5).provider_key.len() != registry_entry(16).provider_key.len());
    assert(registry_entry(5).provider_key[1] != registry_entry(17).provider_key[1]);
    assert(registry_entry(5).provider_key[0] != registry_entry(18).provider_key[0]);
    assert(registry_entry(5).provider_key.len() != registry_entry(19).provider_key.len());
    assert(registry_entry(5).provider_key.len() != registry_entry(20).provider_key.len());
    assert(registry_entry(5).provider_key.len() != registry_entry(21).provider_key.len());
    assert(registry_entry(5).provider_key[0] != registry_entry(22).provider_key[0]);
    assert(registry_entry(5).provider_key[0] != registry_entry(23).provider_key[0]);
    assert(registry_entry(5).provider_key[0] != registry_entry(24).provider_key[0]);
    assert(registry_entry(5).provider_key.len() != registry_entry(25).provider_key.len());
    assert(registry_entry(5).provider_key.len() != registry_entry(26).provider_key.len());
    assert(registry_entry(5).provider_key.len() != registry_entry(27).provider_key.len());
    assert(registry_entry(5).provider_key.len() != registry_entry(28).provider_key.len());
    assert(registry_entry(5).provider_key.len() != registry_entry(29).provider_key.len());
    assert(registry_entry(6).provider_key.len() != registry_entry(7).provider_key.len());
    assert(registry_entry(6).provider_key.len() != registry_entry(8).provider_key.len());
    assert(registry_entry(6).provider_key.len() != registry_entry(9).provider_key.len());
    assert(registry_entry(6).provider_key.len() != registry_entry(10).provider_key.len());
    assert(registry_entry(6).provider_key.len() != registry_entry(11).provider_key.len());
    assert(registry_entry(6).provider_key.len() != registry_entry(12).provider_key.len());
    assert(registry_entry(6).provider_key.len() != registry_entry(13).provider_key.len());
    assert(registry_entry(6).provider_key[0] != registry_entry(14).provider_key[0]);
    assert(registry_entry(6).provider_key.len() != registry_entry(15).provider_key.len());
    assert(registry_entry(6).provider_key[0] != registry_entry(16).provider_key[0]);
    assert(registry_entry(6).provider_key.len() != registry_entry(17).provider_key.len());
    assert(registry_entry(6).provider_key.len() != registry_entry(18).provider_key.len());
    assert(registry_entry(6).provider_key.len() != registry_entry(19).provider_key.len());
    assert(registry_entry(6).provider_key.len() != registry_entry(20).provider_key.len());
    assert(registry_entry(6).provider_key.len() != registry_entry(21).provider_key.len());
    assert(registry_entry(6).provider_key.len() != registry_entry(22).provider_key.len());
    assert(registry_entry(6).provider_key.len() != registry_entry(23).provider_key.len());
    assert(registry_entry(6).provider_key.len() != registry_entry(24).provider_key.len());
    assert(registry_entry(6).provider_key.len() != registry_entry(25).provider_key.len());
    assert(registry_entry(6).provider_key.len() != registry_entry(26).provider_key.len());
    assert(registry_entry(6).provider_key.len() != registry_entry(27).provider_key.len());
    assert(registry_entry(6).provider_key.len() != registry_entry(28).provider_key.len());
    assert(registry_entry(6).provider_key.len() != registry_entry(29).provider_key.len());
    assert(registry_entry(7).provider_key.len() != registry_entry(8).provider_key.len());
    assert(registry_entry(7).provider_key.len() != registry_entry(9).provider_key.len());
    assert(registry_entry(7).provider_key[0] != registry_entry(10).provider_key[0]);
    assert(registry_entry(7).provider_key.len() != registry_entry(11).provider_key.len());
    assert(registry_entry(7).provider_key[0] != registry_entry(12).provider_key[0]);
    assert(registry_entry(7).provider_key[0] != registry_entry(13).provider_key[0]);
    assert(registry_entry(7).provider_key.len() != registry_entry(14).provider_key.len());
    assert(registry_entry(7).provider_key[0] != registry_entry(15).provider_key[0]);
    assert(registry_entry(7).provider_key.len() != registry_entry(16).provider_key.len());
    assert(registry_entry(7).provider_key.len() != registry_entry(17).provider_key.len());
    assert(registry_entry(7).provider_key.len() != registry_entry(18).provider_key.len());
    assert(registry_entry(7).provider_key.len() != registry_entry(19).provider_key.len());
    assert(registry_entry(7).provider_key.len() != registry_entry(20).provider_key.len());
    assert(registry_entry(7).provider_key.len() != registry_entry(21).provider_key.len());
    assert(registry_entry(7).provider_key.len() != registry_entry(22).provider_key.len());
    assert(registry_entry(7).provider_key.len() != registry_entry(23).provider_key.len());
    assert(registry_entry(7).provider_key.len() != registry_entry(24).provider_key.len());
    assert(registry_entry(7).provider_key.len() != registry_entry(25).provider_key.len());
    assert(registry_entry(7).provider_key.len() != registry_entry(26).provider_key.len());
    assert(registry_entry(7).provider_key.len() != registry_entry(27).provider_key.len());
    assert(registry_entry(7).provider_key[0] != registry_entry(28).provider_key[0]);
    assert(registry_entry(7).provider_key[0] != registry_entry(29).provider_key[0]);
    assert(registry_entry(8).provider_key.len() != registry_entry(9).provider_key.len());
    assert(registry_entry(8).provider_key.len() != registry_entry(10).provider_key.len());
    assert(registry_entry(8).provider_key.len() != registry_entry(11).provider_key.len());
    assert(registry_entry(8).provider_key.len() != registry_entry(12).provider_key.len());
    assert(registry_entry(8).provider_key.len() != registry_entry(13).provider_key.len());
    assert(registry_entry(8).provider_key.len() != registry_entry(14).provider_key.len());
    assert(registry_entry(8).provider_key.len() != registry_entry(15).provider_key.len());
    assert(registry_entry(8).provider_key.len() != registry_entry(16).provider_key.len());
    assert(registry_entry(8).provider_key[0] != registry_entry(17).provider_key[0]);
    assert(registry_entry(8).provider_key[0] != registry_entry(18).provider_key[0]);
    assert(registry_entry(8).provider_key.len() != registry_entry(19).provider_key.len());
    assert(registry_entry(8).provider_key.len() != registry_entry(20).provider_key.len());
    assert(registry_entry(8).provider_key.len() != registry_entry(21).provider_key.len());
    assert(registry_entry(8).provider_key[0] != registry_entry(22).provider_key[0]);
    assert(registry_entry(8).provider_key[0] != registry_entry(23).provider_key[0]);
    assert(registry_entry(8).provider_key[0] != registry_entry(24).provider_key[0]);
    assert(registry_entry(8).provider_key.len() != registry_entry(25).provider_key.len());
    assert(registry_entry(8).provider_key.len() != registry_entry(26).provider_key.len());
    assert(registry_entry(8).provider_key.len() != registry_entry(27).provider_key.len());
    assert(registry_entry(8).provider_key.len() != registry_entry(28).provider_key.len());
    assert(registry_entry(8).provider_key.len() != registry_entry(29).provider_key.len());
    assert(registry_entry(9).provider_key.len() != registry_entry(10).provider_key.len());
    assert(registry_entry(9).provider_key.len() != registry_entry(11).provider_key.len());
    assert(registry_entry(9).provider_key.len() != registry_entry(12).provider_key.len());
    assert(registry_entry(9).provider_key.len() != registry_entry(13).provider_key.len());
    assert(registry_entry(9).provider_key.len() != registry_entry(14).provider_key.len());
    assert(registry_entry(9).provider_key.len() != registry_entry(15).provider_key.len());
    assert(registry_entry(9).provider_key.len() != registry_entry(16).provider_key.len());
    assert(registry_entry(9).provider_key.len() != registry_entry(17).provider_key.len());
    assert(registry_entry(9).provider_key.len() != registry_entry(18).provider_key.len());
    assert(registry_entry(9).provider_key.len() != registry_entry(19).provider_key.len());
    assert(registry_entry(9).provider_key.len() != registry_entry(20).provider_key.len());
    assert(registry_entry(9).provider_key.len() != registry_entry(21).provider_key.len());
    assert(registry_entry(9).provider_key.len() != registry_entry(22).provider_key.len());
    assert(registry_entry(9).provider_key.len() != registry_entry(23).provider_key.len());
    assert(registry_entry(9).provider_key.len() != registry_entry(24).provider_key.len());
    assert(registry_entry(9).provider_key.len() != registry_entry(25).provider_key.len());
    assert(registry_entry(9).provider_key.len() != registry_entry(26).provider_key.len());
    assert(registry_entry(9).provider_key.len() != registry_entry(27).provider_key.len());
    assert(registry_entry(9).provider_key.len() != registry_entry(28).provider_key.len());
    assert(registry_entry(9).provider_key.len() != registry_entry(29).provider_key.len());
    assert(registry_entry(10).provider_key.len() != registry_entry(11).provider_key.len());
    assert(registry_entry(10).provider_key[0] != registry_entry(12).provider_key[0]);
    assert(registry_entry(10).provider_key[0] != registry_entry(13).provider_key[0]);
    assert(registry_entry(10).provider_key.len() != registry_entry(14).provider_key.len());
    assert(registry_entry(10).provider_key[0] != registry_entry(15).provider_key[0]);
    assert(registry_entry(10).provider_key.len() != registry_entry(16).provider_key.len());
    assert(registry_entry(10).provider_key.len() != registry_entry(17).provider_key.len());
    assert(registry_entry(10).provider_key.len() != registry_entry(18).provider_key.len());
    assert(registry_entry(10).provider_key.len() != registry_entry(19).provider_key.len());
    assert(registry_entry(10).provider_key.len() != registry_entry(20).provider_key.len());
    assert(registry_entry(10).provider_key.len() != registry_entry(21).provider_key.len());
    assert(registry_entry(10).provider_key.len() != registry_entry(22).provider_key.len());
    assert(registry_entry(10).provider_key.len() != registry_entry(23).provider_key.len());
    assert(registry_entry(10).provider_key.len() != registry_entry(24).provider_key.len());
    assert(registry_entry(10).provider_key.len() != registry_entry(25).provider_key.len());
    assert(registry_entry(10).provider_key.len() != registry_entry(26).provider_key.len());
    assert(registry_entry(10).provider_key.len() != registry_entry(27).provider_key.len());
    assert(registry_entry(10).provider_key[0] != registry_entry(28).provider_key[0]);
    assert(registry_entry(10).provider_key[0] != registry_entry(29).provider_key[0]);
    assert(registry_entry(11).provider_key.len() != registry_entry(12).provider_key.len());
    assert(registry_entry(11).provider_key.len() != registry_entry(13).provider_key.len());
    assert(registry_entry(11).provider_key.len() != registry_entry(14).provider_key.len());
    assert(registry_entry(11).provider_key.len() != registry_entry(15).provider_key.len());
    assert(registry_entry(11).provider_key.len() != registry_entry(16).provider_key.len());
    assert(registry_entry(11).provider_key.len() != registry_entry(17).provider_key.len());
    assert(registry_entry(11).provider_key.len() != registry_entry(18).provider_key.len());
    assert(registry_entry(11).provider_key[0] != registry_entry(19).provider_key[0]);
    assert(registry_entry(11).provider_key[0] != registry_entry(20).provider_key[0]);
    assert(registry_entry(11).provider_key[0] != registry_entry(21).provider_key[0]);
    assert(registry_entry(11).provider_key.len() != registry_entry(22).provider_key.len());
    assert(registry_entry(11).provider_key.len() != registry_entry(23).provider_key.len());
    assert(registry_entry(11).provider_key.len() != registry_entry(24).provider_key.len());
    assert(registry_entry(11).provider_key[0] != registry_entry(25).provider_key[0]);
    assert(registry_entry(11).provider_key.len() != registry_entry(26).provider_key.len());
    assert(registry_entry(11).provider_key.len() != registry_entry(27).provider_key.len());
    assert(registry_entry(11).provider_key.len() != registry_entry(28).provider_key.len());
    assert(registry_entry(11).provider_key.len() != registry_entry(29).provider_key.len());
    assert(registry_entry(12).provider_key[0] != registry_entry(13).provider_key[0]);
    assert(registry_entry(12).provider_key.len() != registry_entry(14).provider_key.len());
    assert(registry_entry(12).provider_key[0] != registry_entry(15).provider_key[0]);
    assert(registry_entry(12).provider_key.len() != registry_entry(16).provider_key.len());
    assert(registry_entry(12).provider_key.len() != registry_entry(17).provider_key.len());
    assert(registry_entry(12).provider_key.len() != registry_entry(18).provider_key.len());
    assert(registry_entry(12).provider_key.len() != registry_entry(19).provider_key.len());
    assert(registry_entry(12).provider_key.len() != registry_entry(20).provider_key.len());
    assert(registry_entry(12).provider_key.len() != registry_entry(21).provider_key.len());
    assert(registry_entry(12).provider_key.len() != registry_entry(22).provider_key.len());
    assert(registry_entry(12).provider_key.len() != registry_entry(23).provider_key.len());
    assert(registry_entry(12).provider_key.len() != registry_entry(24).provider_key.len());
    assert(registry_entry(12).provider_key.len() != registry_entry(25).provider_key.len());
    assert(registry_entry(12).provider_key.len() != registry_entry(26).provider_key.len());
    assert(registry_entry(12).provider_key.len() != registry_entry(27).provider_key.len());
    assert(registry_entry(12).provider_key[0] != registry_entry(28).provider_key[0]);
    assert(registry_entry(12).provider_key[0] != registry_entry(29).provider_key[0]);
    assert(registry_entry(13).provider_key.len() != registry_entry(14).provider_key.len());
    assert(registry_entry(13).provider_key[0] != registry_entry(15).provider_key[0]);
    assert(registry_entry(13).provider_key.len() != registry_entry(16).provider_key.len());
    assert(registry_entry(13).provider_key.len() != registry_entry(17).provider_key.len());
    assert(registry_entry(13).provider_key.len() != registry_entry(18).provider_key.len());
    assert(registry_entry(13).provider_key.len() != registry_entry(19).provider_key.len());
    assert(registry_entry(13).provider_key.len() != registry_entry(20).provider_key.len());
    assert(registry_entry(13).provider_key.len() != registry_entry(21).provider_key.len());
    assert(registry_entry(13).provider_key.len() != registry_entry(22).provider_key.len());
    assert(registry_entry(13).provider_key.len() != registry_entry(23).provider_key.len());
    assert(registry_entry(13).provider_key.len() != registry_entry(24).provider_key.len());
    assert(registry_entry(13).provider_key.len() != registry_entry(25).provider_key.len());
    assert(registry_entry(13).provider_key.len() != registry_entry(26).provider_key.len());
    assert(registry_entry(13).provider_key.len() != registry_entry(27).provider_key.len());
    assert(registry_entry(13).provider_key[0] != registry_entry(28).provider_key[0]);
    assert(registry_entry(13).provider_key[0] != registry_entry(29).provider_key[0]);
    assert(registry_entry(14).provider_key.len() != registry_entry(15).provider_key.len());
    assert(registry_entry(14).provider_key[0] != registry_entry(16).provider_key[0]);
    assert(registry_entry(14).provider_key.len() != registry_entry(17).provider_key.len());
    assert(registry_entry(14).provider_key.len() != registry_entry(18).provider_key.len());
    assert(registry_entry(14).provider_key.len() != registry_entry(19).provider_key.len());
    assert(registry_entry(14).provider_key.len() != registry_entry(20).provider_key.len());
    assert(registry_entry(14).provider_key.len() != registry_entry(21).provider_key.len());
    assert(registry_entry(14).provider_key.len() != registry_entry(22).provider_key.len());
    assert(registry_entry(14).provider_key.len() != registry_entry(23).provider_key.len());
    assert(registry_entry(14).provider_key.len() != registry_entry(24).provider_key.len());
    assert(registry_entry(14).provider_key.len() != registry_entry(25).provider_key.len());
    assert(registry_entry(14).provider_key.len() != registry_entry(26).provider_key.len());
    assert(registry_entry(14).provider_key.len() != registry_entry(27).provider_key.len());
    assert(registry_entry(14).provider_key.len() != registry_entry(28).provider_key.len());
    assert(registry_entry(14).provider_key.len() != registry_entry(29).provider_key.len());
    assert(registry_entry(15).provider_key.len() != registry_entry(16).provider_key.len());
    assert(registry_entry(15).provider_key.len() != registry_entry(17).provider_key.len());
    assert(registry_entry(15).provider_key.len() != registry_entry(18).provider_key.len());
    assert(registry_entry(15).provider_key.len() != registry_entry(19).provider_key.len());
    assert(registry_entry(15).provider_key.len() != registry_entry(20).provider_key.len());
    assert(registry_entry(15).provider_key.len() != registry_entry(21).provider_key.len());
    assert(registry_entry(15).provider_key.len() != registry_entry(22).provider_key.len());
    assert(registry_entry(15).provider_key.len() != registry_entry(23).provider_key.len());
    assert(registry_entry(15).provider_key.len() != registry_entry(24).provider_key.len());
    assert(registry_entry(15).provider_key.len() != registry_entry(25).provider_key.len());
    assert(registry_entry(15).provider_key.len() != registry_entry(26).provider_key.len());
    assert(registry_entry(15).provider_key.len() != registry_entry(27).provider_key.len());
    assert(registry_entry(15).provider_key[0] != registry_entry(28).provider_key[0]);
    assert(registry_entry(15).provider_key[0] != registry_entry(29).provider_key[0]);
    assert(registry_entry(16).provider_key.len() != registry_entry(17).provider_key.len());
    assert(registry_entry(16).provider_key.len() != registry_entry(18).provider_key.len());
    assert(registry_entry(16).provider_key.len() != registry_entry(19).provider_key.len());
    assert(registry_entry(16).provider_key.len() != registry_entry(20).provider_key.len());
    assert(registry_entry(16).provider_key.len() != registry_entry(21).provider_key.len());
    assert(registry_entry(16).provider_key.len() != registry_entry(22).provider_key.len());
    assert(registry_entry(16).provider_key.len() != registry_entry(23).provider_key.len());
    assert(registry_entry(16).provider_key.len() != registry_entry(24).provider_key.len());
    assert(registry_entry(16).provider_key.len() != registry_entry(25).provider_key.len());
    assert(registry_entry(16).provider_key.len() != registry_entry(26).provider_key.len());
    assert(registry_entry(16).provider_key.len() != registry_entry(27).provider_key.len());
    assert(registry_entry(16).provider_key.len() != registry_entry(28).provider_key.len());
    assert(registry_entry(16).provider_key.len() != registry_entry(29).provider_key.len());
    assert(registry_entry(17).provider_key[0] != registry_entry(18).provider_key[0]);
    assert(registry_entry(17).provider_key.len() != registry_entry(19).provider_key.len());
    assert(registry_entry(17).provider_key.len() != registry_entry(20).provider_key.len());
    assert(registry_entry(17).provider_key.len() != registry_entry(21).provider_key.len());
    assert(registry_entry(17).provider_key[0] != registry_entry(22).provider_key[0]);
    assert(registry_entry(17).provider_key[0] != registry_entry(23).provider_key[0]);
    assert(registry_entry(17).provider_key[0] != registry_entry(24).provider_key[0]);
    assert(registry_entry(17).provider_key.len() != registry_entry(25).provider_key.len());
    assert(registry_entry(17).provider_key.len() != registry_entry(26).provider_key.len());
    assert(registry_entry(17).provider_key.len() != registry_entry(27).provider_key.len());
    assert(registry_entry(17).provider_key.len() != registry_entry(28).provider_key.len());
    assert(registry_entry(17).provider_key.len() != registry_entry(29).provider_key.len());
    assert(registry_entry(18).provider_key.len() != registry_entry(19).provider_key.len());
    assert(registry_entry(18).provider_key.len() != registry_entry(20).provider_key.len());
    assert(registry_entry(18).provider_key.len() != registry_entry(21).provider_key.len());
    assert(registry_entry(18).provider_key[0] != registry_entry(22).provider_key[0]);
    assert(registry_entry(18).provider_key[0] != registry_entry(23).provider_key[0]);
    assert(registry_entry(18).provider_key[0] != registry_entry(24).provider_key[0]);
    assert(registry_entry(18).provider_key.len() != registry_entry(25).provider_key.len());
    assert(registry_entry(18).provider_key.len() != registry_entry(26).provider_key.len());
    assert(registry_entry(18).provider_key.len() != registry_entry(27).provider_key.len());
    assert(registry_entry(18).provider_key.len() != registry_entry(28).provider_key.len());
    assert(registry_entry(18).provider_key.len() != registry_entry(29).provider_key.len());
    assert(registry_entry(19).provider_key[0] != registry_entry(20).provider_key[0]);
    assert(registry_entry(19).provider_key[0] != registry_entry(21).provider_key[0]);
    assert(registry_entry(19).provider_key.len() != registry_entry(22).provider_key.len());
    assert(registry_entry(19).provider_key.len() != registry_entry(23).provider_key.len());
    assert(registry_entry(19).provider_key.len() != registry_entry(24).provider_key.len());
    assert(registry_entry(19).provider_key[0] != registry_entry(25).provider_key[0]);
    assert(registry_entry(19).provider_key.len() != registry_entry(26).provider_key.len());
    assert(registry_entry(19).provider_key.len() != registry_entry(27).provider_key.len());
    assert(registry_entry(19).provider_key.len() != registry_entry(28).provider_key.len());
    assert(registry_entry(19).provider_key.len() != registry_entry(29).provider_key.len());
    assert(registry_entry(20).provider_key[0] != registry_entry(21).provider_key[0]);
    assert(registry_entry(20).provider_key.len() != registry_entry(22).provider_key.len());
    assert(registry_entry(20).provider_key.len() != registry_entry(23).provider_key.len());
    assert(registry_entry(20).provider_key.len() != registry_entry(24).provider_key.len());
    assert(registry_entry(20).provider_key[0] != registry_entry(25).provider_key[0]);
    assert(registry_entry(20).provider_key.len() != registry_entry(26).provider_key.len());
    assert(registry_entry(20).provider_key.len() != registry_entry(27).provider_key.len());
    assert(registry_entry(20).provider_key.len() != registry_entry(28).provider_key.len());
    assert(registry_entry(20).provider_key.len() != registry_entry(29).provider_key.len());
    assert(registry_entry(21).provider_key.len() != registry_entry(22).provider_key.len());
    assert(registry_entry(21).provider_key.len() != registry_entry(23).provider_key.len());
    assert(registry_entry(21).provider_key.len() != registry_entry(24).provider_key.len());
    assert(registry_entry(21).provider_key[0] != registry_entry(25).provider_key[0]);
    assert(registry_entry(21).provider_key.len() != registry_entry(26).provider_key.len());
    assert(registry_entry(21).provider_key.len() != registry_entry(27).provider_key.len());
    assert(registry_entry(21).provider_key.len() != registry_entry(28).provider_key.len());
    assert(registry_entry(21).provider_key.len() != registry_entry(29).provider_key.len());
    assert(registry_entry(22).provider_key[0] != registry_entry(23).provider_key[0]);
    assert(registry_entry(22).provider_key[0] != registry_entry(24).provider_key[0]);
    assert(registry_entry(22).provider_key.len() != registry_entry(25).provider_key.len());
    assert(registry_entry(22).provider_key.len() != registry_entry(26).provider_key.len());
    assert(registry_entry(22).provider_key.len() != registry_entry(27).provider_key.len());
    assert(registry_entry(22).provider_key.len() != registry_entry(28).provider_key.len());
    assert(registry_entry(22).provider_key.len() != registry_entry(29).provider_key.len());
    assert(registry_entry(23).provider_key[0] != registry_entry(24).provider_key[0]);
    assert(registry_entry(23).provider_key.len() != registry_entry(25).provider_key.len());
    assert(registry_entry(23).provider_key.len() != registry_entry(26).provider_key.len());
    assert(registry_entry(23).provider_key.len() != registry_entry(27).provider_key.len());
    assert(registry_entry(23).provider_key.len() != registry_entry(28).provider_key.len());
    assert(registry_entry(23).provider_key.len() != registry_entry(29).provider_key.len());
    assert(registry_entry(24).provider_key.len() != registry_entry(25).provider_key.len());
    assert(registry_entry(24).provider_key.len() != registry_entry(26).provider_key.len());
    assert(registry_entry(24).provider_key.len() != registry_entry(27).provider_key.len());
    assert(registry_entry(24).provider_key.len() != registry_entry(28).provider_key.len());
    assert(registry_entry(24).provider_key.len() != registry_entry(29).provider_key.len());
    assert(registry_entry(25).provider_key.len() != registry_entry(26).provider_key.len());
    assert(registry_entry(25).provider_key.len() != registry_entry(27).provider_key.len());
    assert(registry_entry(25).provider_key.len() != registry_entry(28).provider_key.len());
    assert(registry_entry(25).provider_key.len() != registry_entry(29).provider_key.len());
    assert(registry_entry(26).provider_key.len() != registry_entry(27).provider_key.len());
    assert(registry_entry(26).provider_key.len() != registry_entry(28).provider_key.len());
    assert(registry_entry(26).provider_key.len() != registry_entry(29).provider_key.len());
    assert(registry_entry(27).provider_key.len() != registry_entry(28).provider_key.len());
    assert(registry_entry(27).provider_key.len() != registry_entry(29).provider_key.len());
    assert(registry_entry(28).provider_key[1] != registry_entry(29).provider_key[1]);
    assert forall|i: int, j: int|
        0 <= i < registry_len() && 0 <= j < registry_len() && i != j implies registry()[i].channel
            != registry()[j].channel || registry()[i].provider_key != registry()[j].provider_key by {
        assert(registry()[i] == registry_entry(i));
        assert(registry()[j] == registry_entry(j));
    }
}

/// Sources that name the same group agree on the group's category and label.
pub proof fn lemma_registry_groups_consistent()
    ensures
        forall|i: int, j: int|
            0 <= i < registry_len() && 0 <= j < registry_len() && (#[trigger] registry()[i]).group_id
                == (#[trigger] registry()[j]).group_id ==> registry()[i].category == registry()[j].category
                && registry()[i].group_label == registry()[j].group_label,
{
    reveal_strlit("fanstudio-earthquake-report");
    reveal_strlit("fanstudio-earthquake-warning");
    reveal_strlit("fanstudio-tsunami");
    reveal_strlit("fanstudio-typhoon");
    reveal_strlit("fanstudio-weather-warning");
    reveal_strlit("wolfx-earthquake-warning");
    assert(registry_entry(0).group_id.len() != registry_entry(5).group_id.len());
    assert(registry_entry(0).group_id.len() != registry_entry(6).group_id.len());
    assert(registry_entry(0).group_id.len() != registry_entry(7).group_id.len());
    assert(registry_entry(0).group_id.len() != registry_entry(8).group_id.len());
    assert(registry_entry(0).group_id.len() != registry_entry(9).group_id.len());
    assert(registry_entry(0).group_id.len() != registry_entry(10).group_id.len());
    assert(registry_entry(0).group_id.len() != registry_entry(11).group_id.len());
    assert(registry_entry(0).group_id.len() != registry_entry(12).group_id.len());
    assert(registry_entry(0).group_id.len() != registry_entry(13).group_id.len());
    assert(registry_entry(0).group_id.len() != registry_entry(14).group_id.len());
    assert(registry_entry(0).group_id.len() != registry_entry(15).group_id.len());
    assert(registry_entry(0).group_id.len() != registry_entry(16).group_id.len());
    assert(registry_entry(0).group_id.len() != registry_entry(17).group_id.len());
    assert(registry_entry(0).group_id.len() != registry_entry(18).group_id.len());
    assert(registry_entry(0).group_id.len() != registry_entry(19).group_id.len());
    assert(registry_entry(0).group_id.len() != registry_entry(20).group_id.len());
    assert(registry_entry(0).group_id.len() != registry_entry(21).group_id.len());
    assert(registry_entry(0).group_id.len() != registry_entry(22).group_id.len());
    assert(registry_entry(0).group_id.len() != registry_entry(23).group_id.len());
    assert(registry_entry(0).group_id.len() != registry_entry(24).group_id.len());
    assert(registry_entry(0).group_id.len() != registry_entry(25).group_id.len());
    assert(registry_entry(0).group_id.len() != registry_entry(26).group_id.len());
    assert(registry_entry(0).group_id.len() != registry_entry(27).group_id.len());
    assert(registry_entry(0).group_id.len() != registry_entry(28).group_id.len());
    assert(registry_entry(0).group_id.len() != registry_entry(29).group_id.len());
    assert(registry_entry(1).group_id.len() != registry_entry(5).group_id.len());
    assert(registry_entry(1).group_id.len() != registry_entry(6).group_id.len());
    assert(registry_entry(1).group_id.len() != registry_entry(7).group_id.len());
    assert(registry_entry(1).group_id.len() != registry_entry(8).group_id.len());
    assert(registry_entry(1).group_id.len() != registry_entry(9).group_id.len());
    assert(registry_entry(1).group_id.len() != registry_entry(10).group_id.len());
    assert(registry_entry(1).group_id.len() != registry_entry(11).group_id.len());
    assert(registry_entry(1).group_id.len() != registry_entry(12).group_id.len());
    assert(registry_entry(1).group_id.len() != registry_entry(13).group_id.len());
    assert(registry_entry(1).group_id.len() != registry_entry(14).group_id.len());
    assert(registry_entry(1).group_id.len() != registry_entry(15).group_id.len());
    assert(registry_entry(1).group_id.len() != registry_entry(16).group_id.len());
    assert(registry_entry(1).group_id.len() != registry_entry(17).group_id.len());
    assert(registry_entry(1).group_id.len() != registry_entry(18).group_id.len());
    assert(registry_entry(1).group_id.len() != registry_entry(19).group_id.len());
    assert(registry_entry(1).group_id.len() != registry_entry(20).group_id.len());
    assert(registry_entry(1).group_id.len() != registry_entry(21).group_id.len());
    assert(registry_entry(1).group_id.len() != registry_entry(22).group_id.len());
    assert(registry_entry(1).group_id.len() != registry_entry(23).group_id.len());
    assert(registry_entry(1).group_id.len() != registry_entry(24).group_id.len());
    assert(registry_entry(1).group_id.len() != registry_entry(25).group_id.len());
    assert(registry_entry(1).group_id.len() != registry_entry(26).group_id.len());
    assert(registry_entry(1).group_id.len() != registry_entry(27).group_id.len());
    assert(registry_entry(1).group_id.len() != registry_entry(28).group_id.len());
    assert(registry_entry(1).group_id.len() != registry_entry(29).group_id.len());
    assert(registry_entry(2).group_id.len() != registry_entry(5).group_id.len());
    assert(registry_entry(2).group_id.len() != registry_entry(6).group_id.len());
    assert(registry_entry(2).group_id.len() != registry_entry(7).group_id.len());
    assert(registry_entry(2).group_id.len() != registry_entry(8).group_id.len());
    assert(registry_entry(2).group_id.len() != registry_entry(9).group_id.len());
    assert(registry_entry(2).group_id.len() != registry_entry(10).group_id.len());
    assert(registry_entry(2).group_id.len() != registry_entry(11).group_id.len());
    assert(registry_entry(2).group_id.len() != registry_entry(12).group_id.len());
    assert(registry_entry(2).group_id.len() != registry_entry(13).group_id.len());
    assert(registry_entry(2).group_id.len() != registry_entry(14).group_id.len());
    assert(registry_entry(2).group_id.len() != registry_entry(15).group_id.len());
    assert(registry_entry(2).group_id.len() != registry_entry(16).group_id.len());
    assert(registry_entry(2).group_id.len() != registry_entry(17).group_id.len());
    assert(registry_entry(2).group_id.len() != registry_entry(18).group_id.len());
    assert(registry_entry(2).group_id.len() != registry_entry(19).group_id.len());
    assert(registry_entry(2).group_id.len() != registry_entry(20).group_id.len());
    assert(registry_entry(2).group_id.len() != registry_entry(21).group_id.len());
    assert(registry_entry(2).group_id.len() != registry_entry(22).group_id.len());
    assert(registry_entry(2).group_id.len() != registry_entry(23).group_id.len());
    assert(registry_entry(2).group_id.len() != registry_entry(24).group_id.len());
    assert(registry_entry(2).group_id.len() != registry_entry(25).group_id.len());
    assert(registry_entry(2).group_id.len() != registry_entry(26).group_id.len());
    assert(registry_entry(2).group_id.len() != registry_entry(27).group_id.len());
    assert(registry_entry(2).group_id.len() != registry_entry(28).group_id.len());
    assert(registry_entry(2).group_id.len() != registry_entry(29).group_id.len());
    assert(registry_entry(3).group_id.len() != registry_entry(5).group_id.len());
    assert(registry_entry(3).group_id.len() != registry_entry(6).group_id.len());
    assert(registry_entry(3).group_id.len() != registry_entry(7).group_id.len());
    assert(registry_entry(3).group_id.len() != registry_entry(8).group_id.len());
    assert(registry_entry(3).group_id.len() != registry_entry(9).group_id.len());
    assert(registry_entry(3).group_id.len() != registry_entry(10).group_id.len());
    assert(registry_entry(3).group_id.len() != registry_entry(11).group_id.len());
    assert(registry_entry(3).group_id.len() != registry_entry(12).group_id.len());
    assert(registry_entry(3).group_id.len() != registry_entry(13).group_id.len());
    assert(registry_entry(3).group_id.len() != registry_entry(14).group_id.len());
    assert(registry_entry(3).group_id.len() != registry_entry(15).group_id.len());
    assert(registry_entry(3).group_id.len() != registry_entry(16).group_id.len());
    assert(registry_entry(3).group_id.len() != registry_entry(17).group_id.len());
    assert(registry_entry(3).group_id.len() != registry_entry(18).group_id.len());
    assert(registry_entry(3).group_id.len() != registry_entry(19).group_id.len());
    assert(registry_entry(3).group_id.len() != registry_entry(20).group_id.len());
    assert(registry_entry(3).group_id.len() != registry_entry(21).group_id.len());
    assert(registry_entry(3).group_id.len() != registry_entry(22).group_id.len());
    assert(registry_entry(3).group_id.len() != registry_entry(23).group_id.len());
    assert(registry_entry(3).group_id.len() != registry_entry(24).group_id.len());
    assert(registry_entry(3).group_id.len() != registry_entry(25).group_id.len());
    assert(registry_entry(3).group_id.len() != registry_entry(26).group_id.len());
    assert(registry_entry(3).group_id.len() != registry_entry(27).group_id.len());
    assert(registry_entry(3).group_id.len() != registry_entry(28).group_id.len());
    assert(registry_entry(3).group_id.len() != registry_entry(29).group_id.len());
    assert(registry_entry(4).group_id.len() != registry_entry(5).group_id.len());
    assert(registry_entry(4).group_id.len() != registry_entry(6).group_id.len());
    assert(registry_entry(4).group_id.len() != registry_entry(7).group_id.len());
    assert(registry_entry(4).group_id.len() != registry_entry(8).group_id.len());
    assert(registry_entry(4).group_id.len() != registry_entry(9).group_id.len());
    assert(registry_entry(4).group_id.len() != registry_entry(10).group_id.len());
    assert(registry_entry(4).group_id.len() != registry_entry(11).group_id.len());
    assert(registry_entry(4).group_id.len() != registry_entry(12).group_id.len());
    assert(registry_entry(4).group_id.len() != registry_entry(13).group_id.len());
    assert(registry_entry(4).group_id.len() != registry_entry(14).group_id.len());
    assert(registry_entry(4).group_id.len() != registry_entry(15).group_id.len());
    assert(registry_entry(4).group_id.len() != registry_entry(16).group_id.len());
    assert(registry_entry(4).group_id.len() != registry_entry(17).group_id.len());
    assert(registry_entry(4).group_id.len() != registry_entry(18).group_id.len());
    assert(registry_entry(4).group_id.len() != registry_entry(19).group_id.len());
    assert(registry_entry(4).group_id.len() != registry_entry(20).group_id.len());
    assert(registry_entry(4).group_id.len() != registry_entry(21).group_id.len());
    assert(registry_entry(4).group_id.len() != registry_entry(22).group_id.len());
    assert(registry_entry(4).group_id.len() != registry_entry(23).group_id.len());
    assert(registry_entry(4).group_id.len() != registry_entry(24).group_id.len());
    assert(registry_entry(4).group_id.len() != registry_entry(25).group_id.len());
    assert(registry_entry(4).group_id.len() != registry_entry(26).group_id.len());
    assert(registry_entry(4).group_id.len() != registry_entry(27).group_id.len());
    assert(registry_entry(4).group_id.len() != registry_entry(28).group_id.len());
    assert(registry_entry(4).group_id.len() != registry_entry(29).group_id.len());
    assert(registry_entry(5).group_id.len() != registry_entry(11).group_id.len());
    assert(registry_entry(5).group_id.len() != registry_entry(12).group_id.len());
    assert(registry_entry(5).group_id.len() != registry_entry(13).group_id.len());
    assert(registry_entry(5).group_id.len() != registry_entry(14).group_id.len());
    assert(registry_entry(5).group_id.len() != registry_entry(15).group_id.len());
    assert(registry_entry(5).group_id.len() != registry_entry(16).group_id.len());
    assert(registry_entry(5).group_id.len() != registry_entry(17).group_id.len());
    assert(registry_entry(5).group_id.len() != registry_entry(18).group_id.len());
    assert(registry_entry(5).group_id.len() != registry_entry(19).group_id.len());
    assert(registry_entry(5).group_id.len() != registry_entry(20).group_id.len());
    assert(registry_entry(5).group_id.len() != registry_entry(21).group_id.len());
    assert(registry_entry(5).group_id.len() != registry_entry(22).group_id.len());
    assert(registry_entry(5).group_id.len() != registry_entry(23).group_id.len());
    assert(registry_entry(5).group_id.len() != registry_entry(24).group_id.len());
    assert(registry_entry(5).group_id.len() != registry_entry(25).group_id.len());
    assert(registry_entry(5).group_id.len() != registry_entry(26).group_id.len());
    assert(registry_entry(5).group_id.len() != registry_entry(27).group_id.len());
    assert(registry_entry(5).group_id.len() != registry_entry(28).group_id.len());
    assert(registry_entry(5).group_id.len() != registry_entry(29).group_id.len());
    assert(registry_entry(6).group_id.len() != registry_entry(11).group_id.len());
    assert(registry_entry(6).group_id.len() != registry_entry(12).group_id.len());
    assert(registry_entry(6).group_id.len() != registry_entry(13).group_id.len());
    assert(registry_entry(6).group_id.len() != registry_entry(14).group_id.len());
    assert(registry_entry(6).group_id.len() != registry_entry(15).group_id.len());
    assert(registry_entry(6).group_id.len() != registry_entry(16).group_id.len());
    assert(registry_entry(6).group_id.len() != registry_entry(17).group_id.len());
    assert(registry_entry(6).group_id.len() != registry_entry(18).group_id.len());
    assert(registry_entry(6).group_id.len() != registry_entry(19).group_id.len());
    assert(registry_entry(6).group_id.len() != registry_entry(20).group_id.len());
    assert(registry_entry(6).group_id.len() != registry_entry(21).group_id.len());
    assert(registry_entry(6).group_id.len() != registry_entry(22).group_id.len());
    assert(registry_entry(6).group_id.len() != registry_entry(23).group_id.len());
    assert(registry_entry(6).group_id.len() != registry_entry(24).group_id.len());
    assert(registry_entry(6).group_id.len() != registry_entry(25).group_id.len());
    assert(registry_entry(6).group_id.len() != registry_entry(26).group_id.len());
    assert(registry_entry(6).group_id.len() != registry_entry(27).group_id.len());
    assert(registry_entry(6).group_id.len() != registry_entry(28).group_id.len());
    assert(registry_entry(6).group_id.len() != registry_entry(29).group_id.len());
    assert(registry_entry(7).group_id.len() != registry_entry(11).group_id.len());
    assert(registry_entry(7).group_id.len() != registry_entry(12).group_id.len());
    assert(registry_entry(7).group_id.len() != registry_entry(13).group_id.len());
    assert(registry_entry(7).group_id.len() != registry_entry(14).group_id.len());
    assert(registry_entry(7).group_id.len() != registry_entry(15).group_id.len());
    assert(registry_entry(7).group_id.len() != registry_entry(16).group_id.len());
    assert(registry_entry(7).group_id.len() != registry_entry(17).group_id.len());
    assert(registry_entry(7).group_id.len() != registry_entry(18).group_id.len());
    assert(registry_entry(7).group_id.len() != registry_entry(19).group_id.len());
    assert(registry_entry(7).group_id.len() != registry_entry(20).group_id.len());
    assert(registry_entry(7).group_id.len() != registry_entry(21).group_id.len());
    assert(registry_entry(7).group_id.len() != registry_entry(22).group_id.len());
    assert(registry_entry(7).group_id.len() != registry_entry(23).group_id.len());
    assert(registry_entry(7).group_id.len() != registry_entry(24).group_id.len());
    assert(registry_entry(7).group_id.len() != registry_entry(25).group_id.len());
    assert(registry_entry(7).group_id.len() != registry_entry(26).group_id.len());
    assert(registry_entry(7).group_id.len() != registry_entry(27).group_id.len());
    assert(registry_entry(7).group_id.len() != registry_entry(28).group_id.len());
    assert(registry_entry(7).group_id.len() != registry_entry(29).group_id.len());
    assert(registry_entry(8).group_id.len() != registry_entry(11).group_id.len());
    assert(registry_entry(8).group_id.len() != registry_entry(12).group_id.len());
    assert(registry_entry(8).group_id.len() != registry_entry(13).group_id.len());
    assert(registry_entry(8).group_id.len() != registry_entry(14).group_id.len());
    assert(registry_entry(8).group_id.len() != registry_entry(15).group_id.len());
    assert(registry_entry(8).group_id.len() != registry_entry(16).group_id.len());
    assert(registry_entry(8).group_id.len() != registry_entry(17).group_id.len());
    assert(registry_entry(8).group_id.len() != registry_entry(18).group_id.len());
    assert(registry_entry(8).group_id.len() != registry_entry(19).group_id.len());
    assert(registry_entry(8).group_id.len() != registry_entry(20).group_id.len());
    assert(registry_entry(8).group_id.len() != registry_entry(21).group_id.len());
    assert(registry_entry(8).group_id.len() != registry_entry(22).group_id.len());
    assert(registry_entry(8).group_id.len() != registry_entry(23).group_id.len());
    assert(registry_entry(8).group_id.len() != registry_entry(24).group_id.len());
    assert(registry_entry(8).group_id.len() != registry_entry(25).group_id.len());
    assert(registry_entry(8).group_id.len() != registry_entry(26).group_id.len());
    assert(registry_entry(8).group_id.len() != registry_entry(27).group_id.len());
    assert(registry_entry(8).group_id.len() != registry_entry(28).group_id.len());
    assert(registry_entry(8).group_id.len() != registry_entry(29).group_id.len());
    assert(registry_entry(9).group_id.len() != registry_entry(11).group_id.len());
    assert(registry_entry(9).group_id.len() != registry_entry(12).group_id.len());
    assert(registry_entry(9).group_id.len() != registry_entry(13).group_id.len());
    assert(registry_entry(9).group_id.len() != registry_entry(14).group_id.len());
    assert(registry_entry(9).group_id.len() != registry_entry(15).group_id.len());
    assert(registry_entry(9).group_id.len() != registry_entry(16).group_id.len());
    assert(registry_entry(9).group_id.len() != registry_entry(17).group_id.len());
    assert(registry_entry(9).group_id.len() != registry_entry(18).group_id.len());
    assert(registry_entry(9).group_id.len() != registry_entry(19).group_id.len());
    assert(registry_entry(9).group_id.len() != registry_entry(20).group_id.len());
    assert(registry_entry(9).group_id.len() != registry_entry(21).group_id.len());
    assert(registry_entry(9).group_id.len() != registry_entry(22).group_id.len());
    assert(registry_entry(9).group_id.len() != registry_entry(23).group_id.len());
    assert(registry_entry(9).group_id.len() != registry_entry(24).group_id.len());
    assert(registry_entry(9).group_id.len() != registry_entry(25).group_id.len());
    assert(registry_entry(9).group_id.len() != registry_entry(26).group_id.len());
    assert(registry_entry(9).group_id.len() != registry_entry(27).group_id.len());
    assert(registry_entry(9).group_id.len() != registry_entry(28).group_id.len());
    assert(registry_entry(9).group_id.len() != registry_entry(29).group_id.len());
    assert(registry_entry(10).group_id.len() != registry_entry(11).group_id.len());
    assert(registry_entry(10).group_id.len() != registry_entry(12).group_id.len());
    assert(registry_entry(10).group_id.len() != registry_entry(13).group_id.len());
    assert(registry_entry(10).group_id.len() != registry_entry(14).group_id.len());
    assert(registry_entry(10).group_id.len() != registry_entry(15).group_id.len());
    assert(registry_entry(10).group_id.len() != registry_entry(16).group_id.len());
    assert(registry_entry(10).group_id.len() != registry_entry(17).group_id.len());
    assert(registry_entry(10).group_id.len() != registry_entry(18).group_id.len());
    assert(registry_entry(10).group_id.len() != registry_entry(19).group_id.len());
    assert(registry_entry(10).group_id.len() != registry_entry(20).group_id.len());
    assert(registry_entry(10).group_id.len() != registry_entry(21).group_id.len());
    assert(registry_entry(10).group_id.len() != registry_entry(22).group_id.len());
    assert(registry_entry(10).group_id.len() != registry_entry(23).group_id.len());
    assert(registry_entry(10).group_id.len() != registry_entry(24).group_id.len());
    assert(registry_entry(10).group_id.len() != registry_entry(25).group_id.len());
    assert(registry_entry(10).group_id.len() != registry_entry(26).group_id.len());
    assert(registry_entry(10).group_id.len() != registry_entry(27).group_id.len());
    assert(registry_entry(10).group_id.len() != registry_entry(28).group_id.len());
    assert(registry_entry(10).group_id.len() != registry_entry(29).group_id.len());
    assert(registry_entry(11).group_id.len() != registry_entry(27).group_id.len());
    assert(registry_entry(11).group_id.len() != registry_entry(28).group_id.len());
    assert(registry_entry(11).group_id.len() != registry_entry(29).group_id.len());
    assert(registry_entry(12).group_id.len() != registry_entry(27).group_id.len());
    assert(registry_entry(12).group_id.len() != registry_entry(28).group_id.len());
    assert(registry_entry(12).group_id.len() != registry_entry(29).group_id.len());
    assert(registry_entry(13).group_id.len() != registry_entry(27).group_id.len());
    assert(registry_entry(13).group_id.len() != registry_entry(28).group_id.len());
    assert(registry_entry(13).group_id.len() != registry_entry(29).group_id.len());
    assert(registry_entry(14).group_id.len() != registry_entry(27).group_id.len());
    assert(registry_entry(14).group_id.len() != registry_entry(28).group_id.len());
    assert(registry_entry(14).group_id.len() != registry_entry(29).group_id.len());
    assert(registry_entry(15).group_id.len() != registry_entry(27).group_id.len());
    assert(registry_entry(15).group_id.len() != registry_entry(28).group_id.len());
    assert(registry_entry(15).group_id.len() != registry_entry(29).group_id.len());
    assert(registry_entry(16).group_id.len() != registry_entry(27).group_id.len());
    assert(registry_entry(16).group_id.len() != registry_entry(28).group_id.len());
    assert(registry_entry(16).group_id.len() != registry_entry(29).group_id.len());
    assert(registry_entry(17).group_id.len() != registry_entry(27).group_id.len());
    assert(registry_entry(17).group_id.len() != registry_entry(28).group_id.len());
    assert(registry_entry(17).group_id.len() != registry_entry(29).group_id.len());
    assert(registry_entry(18).group_id.len() != registry_entry(27).group_id.len());
    assert(registry_entry(18).group_id.len() != registry_entry(28).group_id.len());
    assert(registry_entry(18).group_id.len() != registry_entry(29).group_id.len());
    assert(registry_entry(19).group_id.len() != registry_entry(27).group_id.len());
    assert(registry_entry(19).group_id.len() != registry_entry(28).group_id.len());
    assert(registry_entry(19).group_id.len() != registry_entry(29).group_id.len());
    assert(registry_entry(20).group_id.len() != registry_entry(27).group_id.len());
    assert(registry_entry(20).group_id.len() != registry_entry(28).group_id.len());
    assert(registry_entry(20).group_id.len() != registry_entry(29).group_id.len());
    assert(registry_entry(21).group_id.len() != registry_entry(27).group_id.len());
    assert(registry_entry(21).group_id.len() != registry_entry(28).group_id.len());
    assert(registry_entry(21).group_id.len() != registry_entry(29).group_id.len());
    assert(registry_entry(22).group_id.len() != registry_entry(27).group_id.len());
    assert(registry_entry(22).group_id.len() != registry_entry(28).group_id.len());
    assert(registry_entry(22).group_id.len() != registry_entry(29).group_id.len());
    assert(registry_entry(23).group_id.len() != registry_entry(27).group_id.len());
    assert(registry_entry(23).group_id.len() != registry_entry(28).group_id.len());
    assert(registry_entry(23).group_id.len() != registry_entry(29).group_id.len());
    assert(registry_entry(24).group_id.len() != registry_entry(27).group_id.len());
    assert(registry_entry(24).group_id.len() != registry_entry(28).group_id.len());
    assert(registry_entry(24).group_id.len() != registry_entry(29).group_id.len());
    assert(registry_entry(25).group_id.len() != registry_entry(27).group_id.len());
    assert(registry_entry(25).group_id.len() != registry_entry(28).group_id.len());
    assert(registry_entry(25).group_id.len() != registry_entry(29).group_id.len());
    assert(registry_entry(26).group_id.len() != registry_entry(27).group_id.len());
    assert(registry_entry(26).group_id.len() != registry_entry(28).group_id.len());
    assert(registry_entry(26).group_id.len() != registry_entry(29).group_id.len());
    assert(registry_entry(27).group_id.len() != registry_entry(28).group_id.len());
    assert(registry_entry(27).group_id.len() != registry_entry(29).group_id.len());
    assert(registry_entry(28).group_id[11] != registry_entry(29).group_id[11]);
    assert forall|i: int, j: int|
        0 <= i < registry_len() && 0 <= j < registry_len() && registry()[i].group_id
            == registry()[j].group_id implies registry()[i].category == registry()[j].category
            && registry()[i].group_label == registry()[j].group_label by {
        assert(registry()[i] == registry_entry(i));
        assert(registry()[j] == registry_entry(j));
    }
}

/// `i` is the first registered source with identifier `id`.
pub open spec fn is_first_with_id(id: Seq<char>, i: int) -> bool {
    &&& 0 <= i < registry_len()
    &&& registry()[i].id == id
    &&& forall|j: int| 0 <= j < i ==> (#[trigger] registry()[j]).id != id
}

/// `i` is the first registered source of `channel` with `provider_key`.
pub open spec fn is_first_with_provider(channel: ProviderChannel, key: Seq<char>, i: int) -> bool {
    &&& 0 <= i < registry_len()
    &&& registry()[i].channel == channel
    &&& registry()[i].provider_key == key
    &&& forall|j: int|
        0 <= j < i ==> !((#[trigger] registry()[j]).channel == channel && registry()[j].provider_key == key)
}

/// The registered source with identifier `id`.
pub fn find(id: &str) -> (r: Option<SourceDefinition>)
    ensures
        r is None <==> forall|i: int| 0 <= i < registry_len() ==> (#[trigger] registry()[i]).id != id@,
        r matches Some(s) ==> exists|i: int| is_first_with_id(id@, i) && s@ == registry()[i],
{
    let n = source_count();
    let mut i: usize = 0;
    while i < n
        invariant
            n == registry_len(),
            i <= n,
            forall|j: int| 0 <= j < i ==> (#[trigger] registry()[j]).id != id@,
        decreases n - i,
    {
        let s = source_at(i);
        if str_eq(s.id, id) {
            assert(is_first_with_id(id@, i as int));
            return Some(s);
        }
        i += 1;
    }
    None
}

/// The registered source that `channel` delivers under `provider_key`.
pub fn find_provider(channel: ProviderChannel, provider_key: &str) -> (r: Option<SourceDefinition>)
    ensures
        r is None <==> forall|i: int|
            0 <= i < registry_len() ==> !((#[trigger] registry()[i]).channel == channel && registry()[i].provider_key
                == provider_key@),
        r matches Some(s) ==> exists|i: int| is_first_with_provider(channel, provider_key@, i) && s@ == registry()[i],
{
    let n = source_count();
    let mut i: usize = 0;
    while i < n
        invariant
            n == registry_len(),
            i <= n,
            forall|j: int|
                0 <= j < i ==> !((#[trigger] registry()[j]).channel == channel && registry()[j].provider_key
                    == provider_key@),
        decreases n - i,
    {
        let s = source_at(i);
        if s.channel == channel && str_eq(s.provider_key, provider_key) {
            assert(is_first_with_provider(channel, provider_key@, i as int));
            return Some(s);
        }
        i += 1;
    }
    None
}

/// One selectable source on the subscription page.
#[derive(Debug, Clone, Copy)]
pub struct SourceOption {
    pub id: &'static str,
    pub label: &'static str,
}

/// The mathematical content of a [`SourceOption`].
pub struct OptionView {
    pub id: Seq<char>,
    pub label: Seq<char>,
}

impl View for SourceOption {
    type V = OptionView;

    open spec fn view(&self) -> OptionView {
        OptionView { id: self.id@, label: self.label@ }
    }
}

/// The sources of one group, in registry order.
#[derive(Debug, Clone)]
pub struct SourceGroup {
    pub id: &'static str,
    pub label: &'static str,
    pub sources: Vec<SourceOption>,
}

/// The mathematical content of a [`SourceGroup`].
pub struct GroupView {
    pub id: Seq<char>,
    pub label: Seq<char>,
    pub sources: Seq<OptionView>,
}

impl View for SourceGroup {
    type V = GroupView;

    open spec fn view(&self) -> GroupView {
        GroupView {
            id: self.id@,
            label: self.label@,
            sources: self.sources@.map_values(|o: SourceOption| o@),
        }
    }
}

/// The groups of sources of one disaster category.
#[derive(Debug, Clone)]
pub struct CategoryOption {
    pub id: &'static str,
    pub source_groups: Vec<SourceGroup>,
}

/// The mathematical content of a [`CategoryOption`].
pub struct CategoryView {
    pub id: Seq<char>,
    pub groups: Seq<GroupView>,
}

impl View for CategoryOption {
    type V = CategoryView;

    open spec fn view(&self) -> CategoryView {
        CategoryView { id: self.id@, groups: groups_view(self.source_groups@) }
    }
}

/// The views of a sequence of groups.
pub open spec fn groups_view(v: Seq<SourceGroup>) -> Seq<GroupView> {
    v.map_values(|g: SourceGroup| g@)
}

/// The option that stands for source `s`.
pub open spec fn option_of(s: SourceView) -> OptionView {
    OptionView { id: s.id, label: s.label }
}

/// The position of the first group with identifier `gid`, or -1.
pub open spec fn find_group(groups: Seq<GroupView>, gid: Seq<char>) -> int
    decreases groups.len(),
{
    if groups.len() == 0 {
        -1
    } else {
        let k = find_group(groups.drop_last(), gid);
        if k >= 0 {
            k
        } else if groups.last().id == gid {
            groups.len() - 1
        } else {
            -1
        }
    }
}

/// `groups` with source `s` added: to the group that has its group id, or
/// as a new group at the end.
pub open spec fn add_to_groups(groups: Seq<GroupView>, s: SourceView) -> Seq<GroupView> {
    let k = find_group(groups, s.group_id);
    if k >= 0 {
        groups.update(k, GroupView { sources: groups[k].sources.push(option_of(s)), ..groups[k] })
    } else {
        groups.push(GroupView { id: s.group_id, label: s.group_label, sources: seq![option_of(s)] })
    }
}

/// The groups formed by the sources of `srcs` that belong to category `c`:
/// groups in order of first appearance, sources in order within a group.
pub open spec fn groups_for(srcs: Seq<SourceView>, c: DisasterCategory) -> Seq<GroupView>
    decreases srcs.len(),
{
    if srcs.len() == 0 {
        seq![]
    } else {
        let g = groups_for(srcs.drop_last(), c);
        if srcs.last().category == c {
            add_to_groups(g, srcs.last())
        } else {
            g
        }
    }
}

/// What [`category_options`] gives: one entry per category, in declaration
/// order, holding the grouped registry sources of that category.
pub open spec fn category_options_spec() -> Seq<CategoryView> {
    DisasterCategory::all_spec().map_values(
        |c: DisasterCategory| CategoryView { id: c.id(), groups: groups_for(registry(), c) },
    )
}

proof fn lemma_find_group(groups: Seq<GroupView>, gid: Seq<char>, k: int)
    requires
        0 <= k <= groups.len(),
        forall|j: int| 0 <= j < k ==> (#[trigger] groups[j]).id != gid,
        k == groups.len() || groups[k].id == gid,
    ensures
        find_group(groups, gid) == if k == groups.len() { -1 } else { k },
    decreases groups.len(),
{
    if groups.len() > 0 {
        let d = groups.drop_last();
        if k == groups.len() {
            lemma_find_group(d, gid, k - 1);
        } else if k == groups.len() - 1 {
            lemma_find_group(d, gid, k);
        } else {
            lemma_find_group(d, gid, k);
        }
    }
}

/// The position of the first group in `groups` with identifier `gid`.
fn position_of_group(groups: &Vec<SourceGroup>, gid: &str) -> (r: Option<usize>)
    ensures
        match r {
            Some(k) => k == find_group(groups_view(groups@), gid@) && k < groups.len(),
            None => find_group(groups_view(groups@), gid@) == -1,
        },
{
    let ghost gv = groups_view(groups@);
    let mut k: usize = 0;
    while k < groups.len()
        invariant
            gv == groups_view(groups@),
            k <= groups.len(),
            forall|j: int| 0 <= j < k ==> (#[trigger] gv[j]).id != gid@,
        decreases groups.len() - k,
    {
        if str_eq(groups[k].id, gid) {
            proof {
                lemma_find_group(gv, gid@, k as int);
            }
            return Some(k);
        }
        k += 1;
    }
    proof {
        lemma_find_group(gv, gid@, k as int);
    }
    None
}

/// The grouped sources of category `c`.
fn groups_of_category(c: DisasterCategory) -> (groups: Vec<SourceGroup>)
    ensures
        groups_view(groups@) == groups_for(registry(), c),
{
    let n = source_count();
    let mut groups: Vec<SourceGroup> = Vec::new();
    let mut i: usize = 0;
    while i < n
        invariant
            n == registry_len(),
            i <= n,
            groups_view(groups@) == groups_for(registry().take(i as int), c),
        decreases n - i,
    {
        let s = source_at(i);
        proof {
            assert(registry().take(i + 1).drop_last() == registry().take(i as int));
            assert(registry().take(i + 1).last() == registry()[i as int]);
        }
        if s.category == c {
            let option = SourceOption { id: s.id, label: s.label };
            match position_of_group(&groups, s.group_id) {
                Some(k) => {
                    let ghost before = groups_view(groups@);
                    let mut g = groups.remove(k);
                    g.sources.push(option);
                    let ghost gnew = g@;
                    groups.insert(k, g);
                    proof {
                        assert(gnew.sources == before[k as int].sources.push(option_of(s@)));
                        assert(groups_view(groups@) == before.update(k as int, gnew));
                    }
                },
                None => {
                    let ghost before = groups_view(groups@);
                    let g = SourceGroup { id: s.group_id, label: s.group_label, sources: vec![option] };
                    proof {
                        assert(g@.sources == seq![option_of(s@)]);
                    }
                    groups.push(g);
                    proof {
                        assert(groups_view(groups@) == before.push(g@));
                    }
                },
            }
        }
        i += 1;
    }
    assert(registry().take(n as int) == registry());
    groups
}

/// The subscription page's choice of sources: every category, in
/// declaration order, with its registry sources grouped by group id.
pub fn category_options() -> (r: Vec<CategoryOption>)
    ensures
        r@.map_values(|o: CategoryOption| o@) == category_options_spec(),
{
    let all = DisasterCategory::all();
    let mut r: Vec<CategoryOption> = Vec::new();
    let mut i: usize = 0;
    while i < all.len()
        invariant
            all@ == DisasterCategory::all_spec(),
            i <= all.len(),
            r@.map_values(|o: CategoryOption| o@) == category_options_spec().take(i as int),
        decreases all.len() - i,
    {
        let c = all[i];
        let option = CategoryOption { id: c.as_str(), source_groups: groups_of_category(c) };
        let ghost before = r@.map_values(|o: CategoryOption| o@);
        r.push(option);
        proof {
            assert(r@.map_values(|o: CategoryOption| o@) == before.push(option@));
            assert(category_options_spec().take(i + 1) == category_options_spec().take(i as int).push(
                category_options_spec()[i as int],
            ));
        }
        i += 1;
    }
    assert(category_options_spec().take(all.len() as int) == category_options_spec());
    r
}

/// Number of options held by `groups`.
pub open spec fn option_count(groups: Seq<GroupView>) -> nat
    decreases groups.len(),
{
    if groups.len() == 0 {
        0
    } else {
        option_count(groups.drop_last()) + groups.last().sources.len()
    }
}

/// Number of options held by all categories of `cats`.
pub open spec fn options_total(cats: Seq<CategoryView>) -> nat
    decreases cats.len(),
{
    if cats.len() == 0 {
        0
    } else {
        options_total(cats.drop_last()) + option_count(cats.last().groups)
    }
}

/// Number of sources of `srcs` in category `c`.
pub open spec fn category_count(srcs: Seq<SourceView>, c: DisasterCategory) -> nat
    decreases srcs.len(),
{
    if srcs.len() == 0 {
        0
    } else {
        category_count(srcs.drop_last(), c) + if srcs.last().category == c { 1nat } else { 0nat }
    }
}

proof fn lemma_find_group_range(groups: Seq<GroupView>, gid: Seq<char>)
    ensures
        -1 <= find_group(groups, gid) < groups.len(),
        find_group(groups, gid) >= 0 ==> groups[find_group(groups, gid)].id == gid,
    decreases groups.len(),
{
    if groups.len() > 0 {
        lemma_find_group_range(groups.drop_last(), gid);
    }
}

proof fn lemma_option_count_update(groups: Seq<GroupView>, k: int, x: GroupView)
    requires
        0 <= k < groups.len(),
    ensures
        option_count(groups.update(k, x)) + groups[k].sources.len() == option_count(groups)
            + x.sources.len(),
    decreases groups.len(),
{
    let u = groups.update(k, x);
    if k == groups.len() - 1 {
        assert(u.drop_last() == groups.drop_last());
    } else {
        assert(u.drop_last() == groups.drop_last().update(k, x));
        lemma_option_count_update(groups.drop_last(), k, x);
    }
}

proof fn lemma_add_to_groups_count(groups: Seq<GroupView>, s: SourceView)
    ensures
        option_count(add_to_groups(groups, s)) == option_count(groups) + 1,
{
    lemma_find_group_range(groups, s.group_id);
    let k = find_group(groups, s.group_id);
    if k >= 0 {
        lemma_option_count_update(
            groups,
            k,
            GroupView { sources: groups[k].sources.push(option_of(s)), ..groups[k] },
        );
    } else {
        let g = GroupView { id: s.group_id, label: s.group_label, sources: seq![option_of(s)] };
        assert(groups.push(g).drop_last() == groups);
    }
}

proof fn lemma_groups_for_count(srcs: Seq<SourceView>, c: DisasterCategory)
    ensures
        option_count(groups_for(srcs, c)) == category_count(srcs, c),
    decreases srcs.len(),
{
    if srcs.len() > 0 {
        lemma_groups_for_count(srcs.drop_last(), c);
        if srcs.last().category == c {
            lemma_add_to_groups_count(groups_for(srcs.drop_last(), c), srcs.last());
        }
    }
}

proof fn lemma_category_counts_sum(srcs: Seq<SourceView>)
    ensures
        category_count(srcs, DisasterCategory::EarthquakeWarning) + category_count(
            srcs,
            DisasterCategory::EarthquakeReport,
        ) + category_count(srcs, DisasterCategory::WeatherWarning) + category_count(
            srcs,
            DisasterCategory::Tsunami,
        ) + category_count(srcs, DisasterCategory::Typhoon) == srcs.len(),
    decreases srcs.len(),
{
    if srcs.len() > 0 {
        lemma_category_counts_sum(srcs.drop_last());
    }
}

/// Every registered source is offered exactly as often as once: the options
/// of all categories together number as many as the registry has sources.
pub proof fn lemma_category_options_group_every_source()
    ensures
        options_total(category_options_spec()) == registry_len(),
{
    let cats = category_options_spec();
    let all = DisasterCategory::all_spec();
    assert(cats.len() == 5);
    assert forall|k: int| 0 <= k < 5 implies (#[trigger] cats[k]).groups == groups_for(registry(), all[k]) by {}
    lemma_groups_for_count(registry(), DisasterCategory::EarthquakeWarning);
    lemma_groups_for_count(registry(), DisasterCategory::EarthquakeReport);
    lemma_groups_for_count(registry(), DisasterCategory::WeatherWarning);
    lemma_groups_for_count(registry(), DisasterCategory::Tsunami);
    lemma_groups_for_count(registry(), DisasterCategory::Typhoon);
    lemma_category_counts_sum(registry());
    reveal_with_fuel(options_total, 6);
    assert(cats.drop_last().drop_last().drop_last().drop_last().drop_last().len() == 0);
}

} // verus!
