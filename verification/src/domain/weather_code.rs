//! WMO Weather Interpretation Codes (WW) and the weather icons they map to.
//!
//! The WMO codes, as served by Open-Meteo, classify the weather as a single
//! categorical value rather than separate precipitation and cloud data.
use vstd::prelude::*;
use crate::text::{concat2, concat3, concat4, has_suffix, owned, replace_spec};
use crate::weather::icons::{DayNight, PrecipitationChanceName, PrecipitationKind};

verus! {

/// WMO Weather Interpretation Codes.
#[derive(Debug, Clone, Copy, PartialEq, Eq, Structural)]
pub enum WmoWeatherCode {
    /// Code 0: Clear sky
    ClearSky,
    /// Code 1: Mainly clear
    MainlyClear,
    /// Code 2: Partly cloudy
    PartlyCloudy,
    /// Code 3: Overcast
    Overcast,
    /// Code 45: Fog
    Fog,
    /// Code 48: Depositing rime fog
    RimeFog,
    /// Code 51: Light drizzle
    DrizzleLight,
    /// Code 53: Moderate drizzle
    DrizzleModerate,
    /// Code 55: Dense drizzle
    DrizzleDense,
    /// Code 56: Light freezing drizzle
    FreezingDrizzleLight,
    /// Code 57: Dense freezing drizzle
    FreezingDrizzleDense,
    /// Code 61: Slight rain
    RainSlight,
    /// Code 63: Moderate rain
    RainModerate,
    /// Code 65: Heavy rain
    RainHeavy,
    /// Code 66: Light freezing rain
    FreezingRainLight,
    /// Code 67: Heavy freezing rain
    FreezingRainHeavy,
    /// Code 71: Slight snow fall
    SnowSlight,
    /// Code 73: Moderate snow fall
    SnowModerate,
    /// Code 75: Heavy snow fall
    SnowHeavy,
    /// Code 77: Snow grains
    SnowGrains,
    /// Code 80: Slight rain showers
    RainShowersSlight,
    /// Code 81: Moderate rain showers
    RainShowersModerate,
    /// Code 82: Violent rain showers
    RainShowersViolent,
    /// Code 85: Slight snow showers
    SnowShowersSlight,
    /// Code 86: Heavy snow showers
    SnowShowersHeavy,
    /// Code 95: Thunderstorm (slight or moderate)
    Thunderstorm,
    /// Code 96: Thunderstorm with slight hail
    ThunderstormHailSlight,
    /// Code 99: Thunderstorm with heavy hail
    ThunderstormHailHeavy,
    /// Unknown or unsupported code
    Unknown,
}

impl WmoWeatherCode {
    /// The code that a raw WMO number denotes; numbers outside the table are `Unknown`.
    pub open spec fn spec_from(code: u8) -> WmoWeatherCode {
        if code == 0 { WmoWeatherCode::ClearSky }
        else if code == 1 { WmoWeatherCode::MainlyClear }
        else if code == 2 { WmoWeatherCode::PartlyCloudy }
        else if code == 3 { WmoWeatherCode::Overcast }
        else if code == 45 { WmoWeatherCode::Fog }
        else if code == 48 { WmoWeatherCode::RimeFog }
        else if code == 51 { WmoWeatherCode::DrizzleLight }
        else if code == 53 { WmoWeatherCode::DrizzleModerate }
        else if code == 55 { WmoWeatherCode::DrizzleDense }
        else if code == 56 { WmoWeatherCode::FreezingDrizzleLight }
        else if code == 57 { WmoWeatherCode::FreezingDrizzleDense }
        else if code == 61 { WmoWeatherCode::RainSlight }
        else if code == 63 { WmoWeatherCode::RainModerate }
        else if code == 65 { WmoWeatherCode::RainHeavy }
        else if code == 66 { WmoWeatherCode::FreezingRainLight }
        else if code == 67 { WmoWeatherCode::FreezingRainHeavy }
        else if code == 71 { WmoWeatherCode::SnowSlight }
        else if code == 73 { WmoWeatherCode::SnowModerate }
        else if code == 75 { WmoWeatherCode::SnowHeavy }
        else if code == 77 { WmoWeatherCode::SnowGrains }
        else if code == 80 { WmoWeatherCode::RainShowersSlight }
        else if code == 81 { WmoWeatherCode::RainShowersModerate }
        else if code == 82 { WmoWeatherCode::RainShowersViolent }
        else if code == 85 { WmoWeatherCode::SnowShowersSlight }
        else if code == 86 { WmoWeatherCode::SnowShowersHeavy }
        else if code == 95 { WmoWeatherCode::Thunderstorm }
        else if code == 96 { WmoWeatherCode::ThunderstormHailSlight }
        else if code == 99 { WmoWeatherCode::ThunderstormHailHeavy }
        else { WmoWeatherCode::Unknown }
    }

    /// Cloud level + day/night + precipitation suffix, the shape of most icon names.
    pub open spec fn graded(cloud: PrecipitationChanceName, is_night: bool, kind: PrecipitationKind) -> Seq<char> {
        cloud.name() + DayNight::of(is_night).name() + kind.name() + ".svg"@
    }

    /// The icon file name of a code. Light intensity maps to partly cloudy,
    /// moderate to overcast and heavy or violent to extreme.
    pub open spec fn spec_icon_name(self, is_night: bool) -> Seq<char> {
        let dn = DayNight::of(is_night).name();
        match self {
            WmoWeatherCode::ClearSky => PrecipitationChanceName::Clear.name() + dn + ".svg"@,
            WmoWeatherCode::MainlyClear => "mainly-clear"@ + dn + ".svg"@,
            WmoWeatherCode::PartlyCloudy => PrecipitationChanceName::PartlyCloudy.name() + dn + ".svg"@,
            WmoWeatherCode::Overcast => PrecipitationChanceName::Overcast.name() + dn + ".svg"@,
            WmoWeatherCode::Fog | WmoWeatherCode::RimeFog => "fog"@ + dn + ".svg"@,
            WmoWeatherCode::DrizzleLight => Self::graded(PrecipitationChanceName::PartlyCloudy, is_night, PrecipitationKind::Drizzle),
            WmoWeatherCode::DrizzleModerate => Self::graded(PrecipitationChanceName::Overcast, is_night, PrecipitationKind::Drizzle),
            WmoWeatherCode::DrizzleDense => Self::graded(PrecipitationChanceName::Extreme, is_night, PrecipitationKind::Drizzle),
            WmoWeatherCode::FreezingDrizzleLight => Self::graded(PrecipitationChanceName::PartlyCloudy, is_night, PrecipitationKind::Sleet),
            WmoWeatherCode::FreezingDrizzleDense => Self::graded(PrecipitationChanceName::Overcast, is_night, PrecipitationKind::Sleet),
            WmoWeatherCode::RainSlight => Self::graded(PrecipitationChanceName::PartlyCloudy, is_night, PrecipitationKind::Rain),
            WmoWeatherCode::RainModerate => Self::graded(PrecipitationChanceName::Overcast, is_night, PrecipitationKind::Rain),
            WmoWeatherCode::RainHeavy => Self::graded(PrecipitationChanceName::Extreme, is_night, PrecipitationKind::Rain),
            WmoWeatherCode::FreezingRainLight => Self::graded(PrecipitationChanceName::PartlyCloudy, is_night, PrecipitationKind::Sleet),
            WmoWeatherCode::FreezingRainHeavy => Self::graded(PrecipitationChanceName::Extreme, is_night, PrecipitationKind::Sleet),
            WmoWeatherCode::SnowSlight => Self::graded(PrecipitationChanceName::PartlyCloudy, is_night, PrecipitationKind::Snow),
            WmoWeatherCode::SnowModerate => Self::graded(PrecipitationChanceName::Overcast, is_night, PrecipitationKind::Snow),
            WmoWeatherCode::SnowHeavy => Self::graded(PrecipitationChanceName::Extreme, is_night, PrecipitationKind::Snow),
            WmoWeatherCode::SnowGrains => "overcast"@ + dn + "-snow-grains.svg"@,
            WmoWeatherCode::RainShowersSlight => Self::graded(PrecipitationChanceName::PartlyCloudy, is_night, PrecipitationKind::Rain),
            WmoWeatherCode::RainShowersModerate => Self::graded(PrecipitationChanceName::Overcast, is_night, PrecipitationKind::Rain),
            WmoWeatherCode::RainShowersViolent => Self::graded(PrecipitationChanceName::Extreme, is_night, PrecipitationKind::Rain),
            WmoWeatherCode::SnowShowersSlight => Self::graded(PrecipitationChanceName::PartlyCloudy, is_night, PrecipitationKind::Snow),
            WmoWeatherCode::SnowShowersHeavy => Self::graded(PrecipitationChanceName::Extreme, is_night, PrecipitationKind::Snow),
            WmoWeatherCode::Thunderstorm => "thunderstorms"@ + dn + ".svg"@,
            WmoWeatherCode::ThunderstormHailSlight => "thunderstorms"@ + dn + PrecipitationKind::Hail.name() + ".svg"@,
            WmoWeatherCode::ThunderstormHailHeavy => "thunderstorms"@ + dn + "-"@ + PrecipitationChanceName::Extreme.name() + PrecipitationKind::Hail.name() + ".svg"@,
            WmoWeatherCode::Unknown => PrecipitationChanceName::Overcast.name() + dn + ".svg"@,
        }
    }

    /// The human-readable description of a code.
    pub open spec fn spec_description(self) -> Seq<char> {
        match self {
            WmoWeatherCode::ClearSky => "Clear sky"@,
            WmoWeatherCode::MainlyClear => "Mainly clear"@,
            WmoWeatherCode::PartlyCloudy => "Partly cloudy"@,
            WmoWeatherCode::Overcast => "Overcast"@,
            WmoWeatherCode::Fog => "Fog"@,
            WmoWeatherCode::RimeFog => "Depositing rime fog"@,
            WmoWeatherCode::DrizzleLight => "Light drizzle"@,
            WmoWeatherCode::DrizzleModerate => "Moderate drizzle"@,
            WmoWeatherCode::DrizzleDense => "Dense drizzle"@,
            WmoWeatherCode::FreezingDrizzleLight => "Light freezing drizzle"@,
            WmoWeatherCode::FreezingDrizzleDense => "Dense freezing drizzle"@,
            WmoWeatherCode::RainSlight => "Slight rain"@,
            WmoWeatherCode::RainModerate => "Moderate rain"@,
            WmoWeatherCode::RainHeavy => "Heavy rain"@,
            WmoWeatherCode::FreezingRainLight => "Light freezing rain"@,
            WmoWeatherCode::FreezingRainHeavy => "Heavy freezing rain"@,
            WmoWeatherCode::SnowSlight => "Slight snow"@,
            WmoWeatherCode::SnowModerate => "Moderate snow"@,
            WmoWeatherCode::SnowHeavy => "Heavy snow"@,
            WmoWeatherCode::SnowGrains => "Snow grains"@,
            WmoWeatherCode::RainShowersSlight => "Slight rain showers"@,
            WmoWeatherCode::RainShowersModerate => "Moderate rain showers"@,
            WmoWeatherCode::RainShowersViolent => "Violent rain showers"@,
            WmoWeatherCode::SnowShowersSlight => "Slight snow showers"@,
            WmoWeatherCode::SnowShowersHeavy => "Heavy snow showers"@,
            WmoWeatherCode::Thunderstorm => "Thunderstorm"@,
            WmoWeatherCode::ThunderstormHailSlight => "Thunderstorm with slight hail"@,
            WmoWeatherCode::ThunderstormHailHeavy => "Thunderstorm with heavy hail"@,
            WmoWeatherCode::Unknown => "Unknown weather"@,
        }
    }

    fn graded_name(cloud: PrecipitationChanceName, day_night: DayNight, kind: PrecipitationKind) -> (r: String)
        ensures
            r@ == cloud.name() + day_night.name() + kind.name() + ".svg"@,
    {
        concat4(cloud.as_str(), day_night.as_str(), kind.as_str(), ".svg")
    }

    /// Convert a WMO weather code to its icon file name
    /// (e.g. "partly-cloudy-day-rain.svg", "thunderstorms-night.svg").
    pub fn icon_name(&self, is_night: bool) -> (r: String)
        ensures
            r@ == self.spec_icon_name(is_night),
    {
        let dn = DayNight::from_is_night(is_night);
        match self {
            WmoWeatherCode::ClearSky => concat3(PrecipitationChanceName::Clear.as_str(), dn.as_str(), ".svg"),
            WmoWeatherCode::MainlyClear => concat3("mainly-clear", dn.as_str(), ".svg"),
            WmoWeatherCode::PartlyCloudy => concat3(PrecipitationChanceName::PartlyCloudy.as_str(), dn.as_str(), ".svg"),
            WmoWeatherCode::Overcast => concat3(PrecipitationChanceName::Overcast.as_str(), dn.as_str(), ".svg"),
            WmoWeatherCode::Fog | WmoWeatherCode::RimeFog => concat3("fog", dn.as_str(), ".svg"),
            WmoWeatherCode::DrizzleLight => Self::graded_name(PrecipitationChanceName::PartlyCloudy, dn, PrecipitationKind::Drizzle),
            WmoWeatherCode::DrizzleModerate => Self::graded_name(PrecipitationChanceName::Overcast, dn, PrecipitationKind::Drizzle),
            WmoWeatherCode::DrizzleDense => Self::graded_name(PrecipitationChanceName::Extreme, dn, PrecipitationKind::Drizzle),
            WmoWeatherCode::FreezingDrizzleLight => Self::graded_name(PrecipitationChanceName::PartlyCloudy, dn, PrecipitationKind::Sleet),
            WmoWeatherCode::FreezingDrizzleDense => Self::graded_name(PrecipitationChanceName::Overcast, dn, PrecipitationKind::Sleet),
            WmoWeatherCode::RainSlight => Self::graded_name(PrecipitationChanceName::PartlyCloudy, dn, PrecipitationKind::Rain),
            WmoWeatherCode::RainModerate => Self::graded_name(PrecipitationChanceName::Overcast, dn, PrecipitationKind::Rain),
            WmoWeatherCode::RainHeavy => Self::graded_name(PrecipitationChanceName::Extreme, dn, PrecipitationKind::Rain),
            WmoWeatherCode::FreezingRainLight => Self::graded_name(PrecipitationChanceName::PartlyCloudy, dn, PrecipitationKind::Sleet),
            WmoWeatherCode::FreezingRainHeavy => Self::graded_name(PrecipitationChanceName::Extreme, dn, PrecipitationKind::Sleet),
            WmoWeatherCode::SnowSlight => Self::graded_name(PrecipitationChanceName::PartlyCloudy, dn, PrecipitationKind::Snow),
            WmoWeatherCode::SnowModerate => Self::graded_name(PrecipitationChanceName::Overcast, dn, PrecipitationKind::Snow),
            WmoWeatherCode::SnowHeavy => Self::graded_name(PrecipitationChanceName::Extreme, dn, PrecipitationKind::Snow),
            WmoWeatherCode::SnowGrains => concat3("overcast", dn.as_str(), "-snow-grains.svg"),
            WmoWeatherCode::RainShowersSlight => Self::graded_name(PrecipitationChanceName::PartlyCloudy, dn, PrecipitationKind::Rain),
            WmoWeatherCode::RainShowersModerate => Self::graded_name(PrecipitationChanceName::Overcast, dn, PrecipitationKind::Rain),
            WmoWeatherCode::RainShowersViolent => Self::graded_name(PrecipitationChanceName::Extreme, dn, PrecipitationKind::Rain),
            WmoWeatherCode::SnowShowersSlight => Self::graded_name(PrecipitationChanceName::PartlyCloudy, dn, PrecipitationKind::Snow),
            WmoWeatherCode::SnowShowersHeavy => Self::graded_name(PrecipitationChanceName::Extreme, dn, PrecipitationKind::Snow),
            WmoWeatherCode::Thunderstorm => concat3("thunderstorms", dn.as_str(), ".svg"),
            WmoWeatherCode::ThunderstormHailSlight => concat4("thunderstorms", dn.as_str(), PrecipitationKind::Hail.as_str(), ".svg"),
            WmoWeatherCode::ThunderstormHailHeavy => {
                let head = concat3("thunderstorms", dn.as_str(), "-");
                concat4(head.as_str(), PrecipitationChanceName::Extreme.as_str(), PrecipitationKind::Hail.as_str(), ".svg")
            },
            WmoWeatherCode::Unknown => concat3(PrecipitationChanceName::Overcast.as_str(), dn.as_str(), ".svg"),
        }
    }

    /// The human-readable description.
    pub fn description(&self) -> (r: String)
        ensures
            r@ == self.spec_description(),
    {
        let s: &str = match self {
            WmoWeatherCode::ClearSky => "Clear sky",
            WmoWeatherCode::MainlyClear => "Mainly clear",
            WmoWeatherCode::PartlyCloudy => "Partly cloudy",
            WmoWeatherCode::Overcast => "Overcast",
            WmoWeatherCode::Fog => "Fog",
            WmoWeatherCode::RimeFog => "Depositing rime fog",
            WmoWeatherCode::DrizzleLight => "Light drizzle",
            WmoWeatherCode::DrizzleModerate => "Moderate drizzle",
            WmoWeatherCode::DrizzleDense => "Dense drizzle",
            WmoWeatherCode::FreezingDrizzleLight => "Light freezing drizzle",
            WmoWeatherCode::FreezingDrizzleDense => "Dense freezing drizzle",
            WmoWeatherCode::RainSlight => "Slight rain",
            WmoWeatherCode::RainModerate => "Moderate rain",
            WmoWeatherCode::RainHeavy => "Heavy rain",
            WmoWeatherCode::FreezingRainLight => "Light freezing rain",
            WmoWeatherCode::FreezingRainHeavy => "Heavy freezing rain",
            WmoWeatherCode::SnowSlight => "Slight snow",
            WmoWeatherCode::SnowModerate => "Moderate snow",
            WmoWeatherCode::SnowHeavy => "Heavy snow",
            WmoWeatherCode::SnowGrains => "Snow grains",
            WmoWeatherCode::RainShowersSlight => "Slight rain showers",
            WmoWeatherCode::RainShowersModerate => "Moderate rain showers",
            WmoWeatherCode::RainShowersViolent => "Violent rain showers",
            WmoWeatherCode::SnowShowersSlight => "Slight snow showers",
            WmoWeatherCode::SnowShowersHeavy => "Heavy snow showers",
            WmoWeatherCode::Thunderstorm => "Thunderstorm",
            WmoWeatherCode::ThunderstormHailSlight => "Thunderstorm with slight hail",
            WmoWeatherCode::ThunderstormHailHeavy => "Thunderstorm with heavy hail",
            WmoWeatherCode::Unknown => "Unknown weather",
        };
        owned(s)
    }
}

impl From<u8> for WmoWeatherCode {
    fn from(code: u8) -> (r: WmoWeatherCode) {
        match code {
            0 => WmoWeatherCode::ClearSky,
            1 => WmoWeatherCode::MainlyClear,
            2 => WmoWeatherCode::PartlyCloudy,
            3 => WmoWeatherCode::Overcast,
            45 => WmoWeatherCode::Fog,
            48 => WmoWeatherCode::RimeFog,
            51 => WmoWeatherCode::DrizzleLight,
            53 => WmoWeatherCode::DrizzleModerate,
            55 => WmoWeatherCode::DrizzleDense,
            56 => WmoWeatherCode::FreezingDrizzleLight,
            57 => WmoWeatherCode::FreezingDrizzleDense,
            61 => WmoWeatherCode::RainSlight,
            63 => WmoWeatherCode::RainModerate,
            65 => WmoWeatherCode::RainHeavy,
            66 => WmoWeatherCode::FreezingRainLight,
            67 => WmoWeatherCode::FreezingRainHeavy,
            71 => WmoWeatherCode::SnowSlight,
            73 => WmoWeatherCode::SnowModerate,
            75 => WmoWeatherCode::SnowHeavy,
            77 => WmoWeatherCode::SnowGrains,
            80 => WmoWeatherCode::RainShowersSlight,
            81 => WmoWeatherCode::RainShowersModerate,
            82 => WmoWeatherCode::RainShowersViolent,
            85 => WmoWeatherCode::SnowShowersSlight,
            86 => WmoWeatherCode::SnowShowersHeavy,
            95 => WmoWeatherCode::Thunderstorm,
            96 => WmoWeatherCode::ThunderstormHailSlight,
            99 => WmoWeatherCode::ThunderstormHailHeavy,
            _ => WmoWeatherCode::Unknown,
        }
    }
}

impl vstd::std_specs::convert::FromSpecImpl<u8> for WmoWeatherCode {
    open spec fn obeys_from_spec() -> bool {
        true
    }

    open spec fn from_spec(code: u8) -> WmoWeatherCode {
        WmoWeatherCode::spec_from(code)
    }
}

/// Whether `s` holds no `-day`.
pub open spec fn day_marker_free(s: Seq<char>) -> bool {
    forall|k: int| 0 <= k && k + 4 <= s.len() ==> !(#[trigger] s[k] == '-' && s[k + 1] == 'd' && s[k + 2] == 'a' && s[k + 3] == 'y')
}

/// Whether `s` holds no `-night`.
pub open spec fn night_marker_free(s: Seq<char>) -> bool {
    forall|k: int| 0 <= k && k + 6 <= s.len() ==> !(#[trigger] s[k] == '-' && s[k + 1] == 'n' && s[k + 2] == 'i'
        && s[k + 3] == 'g' && s[k + 4] == 'h' && s[k + 5] == 't')
}

impl WmoWeatherCode {
    /// The part of a code's icon name before its day or night marker.
    pub open spec fn icon_stem(self) -> Seq<char> {
        match self {
            WmoWeatherCode::ClearSky => PrecipitationChanceName::Clear.name(),
            WmoWeatherCode::MainlyClear => "mainly-clear"@,
            WmoWeatherCode::PartlyCloudy | WmoWeatherCode::DrizzleLight | WmoWeatherCode::FreezingDrizzleLight
            | WmoWeatherCode::RainSlight | WmoWeatherCode::FreezingRainLight | WmoWeatherCode::SnowSlight
            | WmoWeatherCode::RainShowersSlight | WmoWeatherCode::SnowShowersSlight => PrecipitationChanceName::PartlyCloudy.name(),
            WmoWeatherCode::Overcast | WmoWeatherCode::DrizzleModerate | WmoWeatherCode::FreezingDrizzleDense
            | WmoWeatherCode::RainModerate | WmoWeatherCode::SnowModerate | WmoWeatherCode::RainShowersModerate
            | WmoWeatherCode::SnowGrains | WmoWeatherCode::Unknown => PrecipitationChanceName::Overcast.name(),
            WmoWeatherCode::Fog | WmoWeatherCode::RimeFog => "fog"@,
            WmoWeatherCode::DrizzleDense | WmoWeatherCode::RainHeavy | WmoWeatherCode::FreezingRainHeavy
            | WmoWeatherCode::SnowHeavy | WmoWeatherCode::RainShowersViolent | WmoWeatherCode::SnowShowersHeavy => PrecipitationChanceName::Extreme.name(),
            WmoWeatherCode::Thunderstorm | WmoWeatherCode::ThunderstormHailSlight | WmoWeatherCode::ThunderstormHailHeavy => "thunderstorms"@,
        }
    }

    /// The part of a code's icon name after its day or night marker.
    pub open spec fn icon_tail(self) -> Seq<char> {
        match self {
            WmoWeatherCode::DrizzleLight | WmoWeatherCode::DrizzleModerate | WmoWeatherCode::DrizzleDense =>
                PrecipitationKind::Drizzle.name() + ".svg"@,
            WmoWeatherCode::FreezingDrizzleLight | WmoWeatherCode::FreezingDrizzleDense | WmoWeatherCode::FreezingRainLight
            | WmoWeatherCode::FreezingRainHeavy => PrecipitationKind::Sleet.name() + ".svg"@,
            WmoWeatherCode::RainSlight | WmoWeatherCode::RainModerate | WmoWeatherCode::RainHeavy
            | WmoWeatherCode::RainShowersSlight | WmoWeatherCode::RainShowersModerate | WmoWeatherCode::RainShowersViolent =>
                PrecipitationKind::Rain.name() + ".svg"@,
            WmoWeatherCode::SnowSlight | WmoWeatherCode::SnowModerate | WmoWeatherCode::SnowHeavy
            | WmoWeatherCode::SnowShowersSlight | WmoWeatherCode::SnowShowersHeavy => PrecipitationKind::Snow.name() + ".svg"@,
            WmoWeatherCode::SnowGrains => "-snow-grains.svg"@,
            WmoWeatherCode::ThunderstormHailSlight => PrecipitationKind::Hail.name() + ".svg"@,
            WmoWeatherCode::ThunderstormHailHeavy => "-"@ + PrecipitationChanceName::Extreme.name() + PrecipitationKind::Hail.name() + ".svg"@,
            _ => ".svg"@,
        }
    }
}

proof fn lemma_replace_after_free_prefix(p: Seq<char>, r: Seq<char>, w: Seq<char>)
    requires
        day_marker_free(p),
        r.len() > 0,
        r[0] == '-',
    ensures
        replace_spec(p + r, "-day"@, w) == p + replace_spec(r, "-day"@, w),
    decreases p.len(),
{
    reveal_strlit("-day");
    if p.len() > 0 {
        let s = p + r;
        assert(!crate::text::has_prefix(s, "-day"@)) by {
            if crate::text::has_prefix(s, "-day"@) {
                assert(s.subrange(0, 4)[0] == s[0] && s.subrange(0, 4)[1] == s[1]);
                assert(s.subrange(0, 4)[2] == s[2] && s.subrange(0, 4)[3] == s[3]);
                if p.len() >= 4 {
                    assert(s[0] == p[0] && s[1] == p[1] && s[2] == p[2] && s[3] == p[3]);
                } else {
                    assert(s[p.len() as int] == '-');
                }
            }
        }
        assert(s.drop_first() =~= p.drop_first() + r);
        assert(day_marker_free(p.drop_first())) by {
            assert forall|k: int| 0 <= k && k + 4 <= p.drop_first().len()
                implies !(#[trigger] p.drop_first()[k] == '-' && p.drop_first()[k + 1] == 'd' && p.drop_first()[k + 2] == 'a' && p.drop_first()[k + 3] == 'y') by {
                assert(p.drop_first()[k] == p[k + 1]);
            }
        }
        lemma_replace_after_free_prefix(p.drop_first(), r, w);
        assert(p + replace_spec(r, "-day"@, w) =~= seq![p[0]] + (p.drop_first() + replace_spec(r, "-day"@, w)));
    } else {
        assert(p + r =~= r);
        assert(p + replace_spec(r, "-day"@, w) =~= replace_spec(r, "-day"@, w));
    }
}

proof fn lemma_replace_absent(q: Seq<char>, w: Seq<char>)
    requires
        day_marker_free(q),
    ensures
        replace_spec(q, "-day"@, w) == q,
    decreases q.len(),
{
    reveal_strlit("-day");
    if q.len() > 0 {
        assert(!crate::text::has_prefix(q, "-day"@)) by {
            if crate::text::has_prefix(q, "-day"@) {
                assert(q.subrange(0, 4)[0] == q[0] && q.subrange(0, 4)[1] == q[1]);
                assert(q.subrange(0, 4)[2] == q[2] && q.subrange(0, 4)[3] == q[3]);
            }
        }
        assert(day_marker_free(q.drop_first())) by {
            assert forall|k: int| 0 <= k && k + 4 <= q.drop_first().len()
                implies !(#[trigger] q.drop_first()[k] == '-' && q.drop_first()[k + 1] == 'd' && q.drop_first()[k + 2] == 'a' && q.drop_first()[k + 3] == 'y') by {
                assert(q.drop_first()[k] == q[k + 1]);
            }
        }
        lemma_replace_absent(q.drop_first(), w);
        assert(seq![q[0]] + q.drop_first() =~= q);
    }
}

proof fn lemma_parts_marker_free(code: WmoWeatherCode)
    ensures
        day_marker_free(code.icon_stem()),
        day_marker_free(code.icon_tail()),
        night_marker_free(code.icon_stem()),
        night_marker_free(code.icon_tail()),
{
    reveal_strlit("clear");
    reveal_strlit("mainly-clear");
    reveal_strlit("partly-cloudy");
    reveal_strlit("overcast");
    reveal_strlit("fog");
    reveal_strlit("extreme");
    reveal_strlit("thunderstorms");
    reveal_strlit(".svg");
    reveal_strlit("-drizzle");
    reveal_strlit("-sleet");
    reveal_strlit("-rain");
    reveal_strlit("-snow");
    reveal_strlit("-hail");
    reveal_strlit("-snow-grains.svg");
    reveal_strlit("-");
    let stem = code.icon_stem();
    let tail = code.icon_tail();
    assert forall|k: int| 0 <= k && k + 4 <= stem.len() implies !(#[trigger] stem[k] == '-' && stem[k + 1] == 'd' && stem[k + 2] == 'a' && stem[k + 3] == 'y') by {
    }
    assert forall|k: int| 0 <= k && k + 4 <= tail.len() implies !(#[trigger] tail[k] == '-' && tail[k + 1] == 'd' && tail[k + 2] == 'a' && tail[k + 3] == 'y') by {
    }
    assert forall|k: int| 0 <= k && k + 6 <= stem.len() implies !(#[trigger] stem[k] == '-' && stem[k + 1] == 'n' && stem[k + 2] == 'i'
        && stem[k + 3] == 'g' && stem[k + 4] == 'h' && stem[k + 5] == 't') by {
    }
    assert forall|k: int| 0 <= k && k + 6 <= tail.len() implies !(#[trigger] tail[k] == '-' && tail[k + 1] == 'n' && tail[k + 2] == 'i'
        && tail[k + 3] == 'g' && tail[k + 4] == 'h' && tail[k + 5] == 't') by {
    }
}

proof fn lemma_icon_parts(code: WmoWeatherCode)
    ensures
        code.spec_icon_name(false) == code.icon_stem() + "-day"@ + code.icon_tail(),
        code.spec_icon_name(true) == code.icon_stem() + "-night"@ + code.icon_tail(),
        has_suffix(code.icon_tail(), ".svg"@),
{
    reveal_strlit(".svg");
    reveal_strlit("-snow-grains.svg");
    let tail = code.icon_tail();
    assert(tail.subrange(tail.len() - 4, tail.len() as int) =~= ".svg"@);
    match code {
        WmoWeatherCode::ClearSky => {
            assert(code.spec_icon_name(false) =~= code.icon_stem() + "-day"@ + code.icon_tail());
            assert(code.spec_icon_name(true) =~= code.icon_stem() + "-night"@ + code.icon_tail());
        },
        WmoWeatherCode::MainlyClear => {
            assert(code.spec_icon_name(false) =~= code.icon_stem() + "-day"@ + code.icon_tail());
            assert(code.spec_icon_name(true) =~= code.icon_stem() + "-night"@ + code.icon_tail());
        },
        WmoWeatherCode::PartlyCloudy => {
            assert(code.spec_icon_name(false) =~= code.icon_stem() + "-day"@ + code.icon_tail());
            assert(code.spec_icon_name(true) =~= code.icon_stem() + "-night"@ + code.icon_tail());
        },
        WmoWeatherCode::Overcast => {
            assert(code.spec_icon_name(false) =~= code.icon_stem() + "-day"@ + code.icon_tail());
            assert(code.spec_icon_name(true) =~= code.icon_stem() + "-night"@ + code.icon_tail());
        },
        WmoWeatherCode::Fog => {
            assert(code.spec_icon_name(false) =~= code.icon_stem() + "-day"@ + code.icon_tail());
            assert(code.spec_icon_name(true) =~= code.icon_stem() + "-night"@ + code.icon_tail());
        },
        WmoWeatherCode::RimeFog => {
            assert(code.spec_icon_name(false) =~= code.icon_stem() + "-day"@ + code.icon_tail());
            assert(code.spec_icon_name(true) =~= code.icon_stem() + "-night"@ + code.icon_tail());
        },
        WmoWeatherCode::DrizzleLight => {
            assert(code.spec_icon_name(false) =~= code.icon_stem() + "-day"@ + code.icon_tail());
            assert(code.spec_icon_name(true) =~= code.icon_stem() + "-night"@ + code.icon_tail());
        },
        WmoWeatherCode::DrizzleModerate => {
            assert(code.spec_icon_name(false) =~= code.icon_stem() + "-day"@ + code.icon_tail());
            assert(code.spec_icon_name(true) =~= code.icon_stem() + "-night"@ + code.icon_tail());
        },
        WmoWeatherCode::DrizzleDense => {
            assert(code.spec_icon_name(false) =~= code.icon_stem() + "-day"@ + code.icon_tail());
            assert(code.spec_icon_name(true) =~= code.icon_stem() + "-night"@ + code.icon_tail());
        },
        WmoWeatherCode::FreezingDrizzleLight => {
            assert(code.spec_icon_name(false) =~= code.icon_stem() + "-day"@ + code.icon_tail());
            assert(code.spec_icon_name(true) =~= code.icon_stem() + "-night"@ + code.icon_tail());
        },
        WmoWeatherCode::FreezingDrizzleDense => {
            assert(code.spec_icon_name(false) =~= code.icon_stem() + "-day"@ + code.icon_tail());
            assert(code.spec_icon_name(true) =~= code.icon_stem() + "-night"@ + code.icon_tail());
        },
        WmoWeatherCode::RainSlight => {
            assert(code.spec_icon_name(false) =~= code.icon_stem() + "-day"@ + code.icon_tail());
            assert(code.spec_icon_name(true) =~= code.icon_stem() + "-night"@ + code.icon_tail());
        },
        WmoWeatherCode::RainModerate => {
            assert(code.spec_icon_name(false) =~= code.icon_stem() + "-day"@ + code.icon_tail());
            assert(code.spec_icon_name(true) =~= code.icon_stem() + "-night"@ + code.icon_tail());
        },
        WmoWeatherCode::RainHeavy => {
            assert(code.spec_icon_name(false) =~= code.icon_stem() + "-day"@ + code.icon_tail());
            assert(code.spec_icon_name(true) =~= code.icon_stem() + "-night"@ + code.icon_tail());
        },
        WmoWeatherCode::FreezingRainLight => {
            assert(code.spec_icon_name(false) =~= code.icon_stem() + "-day"@ + code.icon_tail());
            assert(code.spec_icon_name(true) =~= code.icon_stem() + "-night"@ + code.icon_tail());
        },
        WmoWeatherCode::FreezingRainHeavy => {
            assert(code.spec_icon_name(false) =~= code.icon_stem() + "-day"@ + code.icon_tail());
            assert(code.spec_icon_name(true) =~= code.icon_stem() + "-night"@ + code.icon_tail());
        },
        WmoWeatherCode::SnowSlight => {
            assert(code.spec_icon_name(false) =~= code.icon_stem() + "-day"@ + code.icon_tail());
            assert(code.spec_icon_name(true) =~= code.icon_stem() + "-night"@ + code.icon_tail());
        },
        WmoWeatherCode::SnowModerate => {
            assert(code.spec_icon_name(false) =~= code.icon_stem() + "-day"@ + code.icon_tail());
            assert(code.spec_icon_name(true) =~= code.icon_stem() + "-night"@ + code.icon_tail());
        },
        WmoWeatherCode::SnowHeavy => {
            assert(code.spec_icon_name(false) =~= code.icon_stem() + "-day"@ + code.icon_tail());
            assert(code.spec_icon_name(true) =~= code.icon_stem() + "-night"@ + code.icon_tail());
        },
        WmoWeatherCode::SnowGrains => {
            assert(code.spec_icon_name(false) =~= code.icon_stem() + "-day"@ + code.icon_tail());
            assert(code.spec_icon_name(true) =~= code.icon_stem() + "-night"@ + code.icon_tail());
        },
        WmoWeatherCode::RainShowersSlight => {
            assert(code.spec_icon_name(false) =~= code.icon_stem() + "-day"@ + code.icon_tail());
            assert(code.spec_icon_name(true) =~= code.icon_stem() + "-night"@ + code.icon_tail());
        },
        WmoWeatherCode::RainShowersModerate => {
            assert(code.spec_icon_name(false) =~= code.icon_stem() + "-day"@ + code.icon_tail());
            assert(code.spec_icon_name(true) =~= code.icon_stem() + "-night"@ + code.icon_tail());
        },
        WmoWeatherCode::RainShowersViolent => {
            assert(code.spec_icon_name(false) =~= code.icon_stem() + "-day"@ + code.icon_tail());
            assert(code.spec_icon_name(true) =~= code.icon_stem() + "-night"@ + code.icon_tail());
        },
        WmoWeatherCode::SnowShowersSlight => {
            assert(code.spec_icon_name(false) =~= code.icon_stem() + "-day"@ + code.icon_tail());
            assert(code.spec_icon_name(true) =~= code.icon_stem() + "-night"@ + code.icon_tail());
        },
        WmoWeatherCode::SnowShowersHeavy => {
            assert(code.spec_icon_name(false) =~= code.icon_stem() + "-day"@ + code.icon_tail());
            assert(code.spec_icon_name(true) =~= code.icon_stem() + "-night"@ + code.icon_tail());
        },
        WmoWeatherCode::Thunderstorm => {
            assert(code.spec_icon_name(false) =~= code.icon_stem() + "-day"@ + code.icon_tail());
            assert(code.spec_icon_name(true) =~= code.icon_stem() + "-night"@ + code.icon_tail());
        },
        WmoWeatherCode::ThunderstormHailSlight => {
            assert(code.spec_icon_name(false) =~= code.icon_stem() + "-day"@ + code.icon_tail());
            assert(code.spec_icon_name(true) =~= code.icon_stem() + "-night"@ + code.icon_tail());
        },
        WmoWeatherCode::ThunderstormHailHeavy => {
            assert(code.spec_icon_name(false) =~= code.icon_stem() + "-day"@ + code.icon_tail());
            assert(code.spec_icon_name(true) =~= code.icon_stem() + "-night"@ + code.icon_tail());
        },
        WmoWeatherCode::Unknown => {
            assert(code.spec_icon_name(false) =~= code.icon_stem() + "-day"@ + code.icon_tail());
            assert(code.spec_icon_name(true) =~= code.icon_stem() + "-night"@ + code.icon_tail());
        },
    }
}

/// A code's day and night icon names differ only in the marker: the night
/// name is the day name with its `-day` replaced by `-night`. Both are the
/// same stem and tail, neither of which holds `-day`, around the marker, so
/// the day name holds `-day` exactly once, right after the stem, and holds
/// no `-night`; both are SVG file names.
pub proof fn lemma_day_night_icon_names(code: WmoWeatherCode)
    ensures
        code.spec_icon_name(false) == code.icon_stem() + "-day"@ + code.icon_tail(),
        code.spec_icon_name(true) == code.icon_stem() + "-night"@ + code.icon_tail(),
        day_marker_free(code.icon_stem()),
        day_marker_free(code.icon_tail()),
        replace_spec(code.spec_icon_name(false), "-day"@, "-night"@) == code.spec_icon_name(true),
        has_suffix(code.spec_icon_name(false), ".svg"@),
        has_suffix(code.spec_icon_name(true), ".svg"@),
        forall|k: int| 0 <= k && k + 4 <= code.spec_icon_name(false).len() && #[trigger] code.spec_icon_name(false)[k] == '-'
            && code.spec_icon_name(false)[k + 1] == 'd' && code.spec_icon_name(false)[k + 2] == 'a'
            && code.spec_icon_name(false)[k + 3] == 'y' ==> k == code.icon_stem().len(),
        night_marker_free(code.spec_icon_name(false)),
{
    reveal_strlit("-day");
    reveal_strlit("-night");
    let stem = code.icon_stem();
    let tail = code.icon_tail();
    lemma_icon_parts(code);
    lemma_parts_marker_free(code);
    let r = "-day"@ + tail;
    assert(r[0] == '-');
    lemma_replace_after_free_prefix(stem, r, "-night"@);
    assert(stem + "-day"@ + tail =~= stem + r);
    assert(r.skip(4) =~= tail);
    assert(crate::text::has_prefix(r, "-day"@)) by {
        assert(r.subrange(0, 4) =~= "-day"@);
    }
    lemma_replace_absent(tail, "-night"@);
    assert(replace_spec(r, "-day"@, "-night"@) == "-night"@ + tail);
    assert(stem + ("-night"@ + tail) =~= stem + "-night"@ + tail);
    reveal_strlit(".svg");
    let dn = code.spec_icon_name(false);
    let nn = code.spec_icon_name(true);
    assert(dn.subrange(dn.len() - 4, dn.len() as int) =~= tail.subrange(tail.len() - 4, tail.len() as int));
    assert(nn.subrange(nn.len() - 4, nn.len() as int) =~= tail.subrange(tail.len() - 4, tail.len() as int));
    let m = stem.len() as int;
    assert forall|k: int| 0 <= k && k + 4 <= dn.len() && #[trigger] dn[k] == '-' && dn[k + 1] == 'd' && dn[k + 2] == 'a'
        && dn[k + 3] == 'y' implies k == m by {
        if k < m {
            if k + 4 <= m {
                assert(stem[k] == dn[k] && stem[k + 1] == dn[k + 1] && stem[k + 2] == dn[k + 2] && stem[k + 3] == dn[k + 3]);
            } else {
                assert(dn[m] == '-');
            }
        } else if k > m {
            if k < m + 4 {
                assert(dn[k] == "-day"@[k - m]);
            } else {
                assert(tail[k - m - 4] == dn[k] && tail[k - m - 3] == dn[k + 1]);
                assert(tail[k - m - 2] == dn[k + 2] && tail[k - m - 1] == dn[k + 3]);
            }
        }
    }
    assert forall|k: int| 0 <= k && k + 6 <= dn.len() implies !(#[trigger] dn[k] == '-' && dn[k + 1] == 'n' && dn[k + 2] == 'i'
        && dn[k + 3] == 'g' && dn[k + 4] == 'h' && dn[k + 5] == 't') by {
        if k < m {
            if k + 6 <= m {
                assert(stem[k] == dn[k] && stem[k + 1] == dn[k + 1] && stem[k + 2] == dn[k + 2]);
                assert(stem[k + 3] == dn[k + 3] && stem[k + 4] == dn[k + 4] && stem[k + 5] == dn[k + 5]);
            } else {
                assert(dn[m] == '-');
            }
        } else if k < m + 4 {
            assert(dn[k] == "-day"@[k - m]);
            assert(k + 1 < m + 4 ==> dn[k + 1] == "-day"@[k + 1 - m]);
        } else {
            assert(tail[k - m - 4] == dn[k] && tail[k - m - 3] == dn[k + 1] && tail[k - m - 2] == dn[k + 2]);
            assert(tail[k - m - 1] == dn[k + 3] && tail[k - m] == dn[k + 4] && tail[k - m + 1] == dn[k + 5]);
        }
    }
}

/// The WMO weather-code table: each listed code stands for its condition
/// (0 clear sky, 1 mainly clear, 2 partly cloudy, 3 overcast, 45 and 48
/// fog, 51–57 drizzle, 61–67 rain, 71–77 snow, 80–86 showers, 95–99
/// thunderstorms), and every other code is unknown.
pub proof fn lemma_wmo_code_table(code: u8)
    ensures
        WmoWeatherCode::spec_from(0) == WmoWeatherCode::ClearSky,
        WmoWeatherCode::spec_from(1) == WmoWeatherCode::MainlyClear,
        WmoWeatherCode::spec_from(2) == WmoWeatherCode::PartlyCloudy,
        WmoWeatherCode::spec_from(3) == WmoWeatherCode::Overcast,
        WmoWeatherCode::spec_from(45) == WmoWeatherCode::Fog,
        WmoWeatherCode::spec_from(48) == WmoWeatherCode::RimeFog,
        WmoWeatherCode::spec_from(51) == WmoWeatherCode::DrizzleLight,
        WmoWeatherCode::spec_from(53) == WmoWeatherCode::DrizzleModerate,
        WmoWeatherCode::spec_from(55) == WmoWeatherCode::DrizzleDense,
        WmoWeatherCode::spec_from(56) == WmoWeatherCode::FreezingDrizzleLight,
        WmoWeatherCode::spec_from(57) == WmoWeatherCode::FreezingDrizzleDense,
        WmoWeatherCode::spec_from(61) == WmoWeatherCode::RainSlight,
        WmoWeatherCode::spec_from(63) == WmoWeatherCode::RainModerate,
        WmoWeatherCode::spec_from(65) == WmoWeatherCode::RainHeavy,
        WmoWeatherCode::spec_from(66) == WmoWeatherCode::FreezingRainLight,
        WmoWeatherCode::spec_from(67) == WmoWeatherCode::FreezingRainHeavy,
        WmoWeatherCode::spec_from(71) == WmoWeatherCode::SnowSlight,
        WmoWeatherCode::spec_from(73) == WmoWeatherCode::SnowModerate,
        WmoWeatherCode::spec_from(75) == WmoWeatherCode::SnowHeavy,
        WmoWeatherCode::spec_from(77) == WmoWeatherCode::SnowGrains,
        WmoWeatherCode::spec_from(80) == WmoWeatherCode::RainShowersSlight,
        WmoWeatherCode::spec_from(81) == WmoWeatherCode::RainShowersModerate,
        WmoWeatherCode::spec_from(82) == WmoWeatherCode::RainShowersViolent,
        WmoWeatherCode::spec_from(85) == WmoWeatherCode::SnowShowersSlight,
        WmoWeatherCode::spec_from(86) == WmoWeatherCode::SnowShowersHeavy,
        WmoWeatherCode::spec_from(95) == WmoWeatherCode::Thunderstorm,
        WmoWeatherCode::spec_from(96) == WmoWeatherCode::ThunderstormHailSlight,
        WmoWeatherCode::spec_from(99) == WmoWeatherCode::ThunderstormHailHeavy,
        (code != 0 && code != 1 && code != 2 && code != 3 && code != 45 && code != 48 && code != 51 && code != 53 && code != 55 && code != 56 && code != 57 && code != 61 && code != 63 && code != 65 && code != 66 && code != 67 && code != 71 && code != 73 && code != 75 && code != 77 && code != 80 && code != 81 && code != 82 && code != 85 && code != 86 && code != 95 && code != 96 && code != 99) ==> WmoWeatherCode::spec_from(code) == WmoWeatherCode::Unknown,
{
}

/// What each WMO code shows: its description and its daytime icon
/// (light intensities partly cloudy, moderate overcast, heavy extreme).
pub proof fn lemma_wmo_codes_show(code: u8)
    ensures
        code == 0 ==> WmoWeatherCode::spec_from(code).spec_description() == "Clear sky"@
            && WmoWeatherCode::spec_from(code).spec_icon_name(false) == "clear-day.svg"@,
        code == 1 ==> WmoWeatherCode::spec_from(code).spec_description() == "Mainly clear"@
            && WmoWeatherCode::spec_from(code).spec_icon_name(false) == "mainly-clear-day.svg"@,
        code == 2 ==> WmoWeatherCode::spec_from(code).spec_description() == "Partly cloudy"@
            && WmoWeatherCode::spec_from(code).spec_icon_name(false) == "partly-cloudy-day.svg"@,
        code == 3 ==> WmoWeatherCode::spec_from(code).spec_description() == "Overcast"@
            && WmoWeatherCode::spec_from(code).spec_icon_name(false) == "overcast-day.svg"@,
        code == 45 ==> WmoWeatherCode::spec_from(code).spec_description() == "Fog"@
            && WmoWeatherCode::spec_from(code).spec_icon_name(false) == "fog-day.svg"@,
        code == 48 ==> WmoWeatherCode::spec_from(code).spec_description() == "Depositing rime fog"@
            && WmoWeatherCode::spec_from(code).spec_icon_name(false) == "fog-day.svg"@,
        code == 51 ==> WmoWeatherCode::spec_from(code).spec_description() == "Light drizzle"@
            && WmoWeatherCode::spec_from(code).spec_icon_name(false) == "partly-cloudy-day-drizzle.svg"@,
        code == 53 ==> WmoWeatherCode::spec_from(code).spec_description() == "Moderate drizzle"@
            && WmoWeatherCode::spec_from(code).spec_icon_name(false) == "overcast-day-drizzle.svg"@,
        code == 55 ==> WmoWeatherCode::spec_from(code).spec_description() == "Dense drizzle"@
            && WmoWeatherCode::spec_from(code).spec_icon_name(false) == "extreme-day-drizzle.svg"@,
        code == 56 ==> WmoWeatherCode::spec_from(code).spec_description() == "Light freezing drizzle"@
            && WmoWeatherCode::spec_from(code).spec_icon_name(false) == "partly-cloudy-day-sleet.svg"@,
        code == 57 ==> WmoWeatherCode::spec_from(code).spec_description() == "Dense freezing drizzle"@
            && WmoWeatherCode::spec_from(code).spec_icon_name(false) == "overcast-day-sleet.svg"@,
        code == 61 ==> WmoWeatherCode::spec_from(code).spec_description() == "Slight rain"@
            && WmoWeatherCode::spec_from(code).spec_icon_name(false) == "partly-cloudy-day-rain.svg"@,
        code == 63 ==> WmoWeatherCode::spec_from(code).spec_description() == "Moderate rain"@
            && WmoWeatherCode::spec_from(code).spec_icon_name(false) == "overcast-day-rain.svg"@,
        code == 65 ==> WmoWeatherCode::spec_from(code).spec_description() == "Heavy rain"@
            && WmoWeatherCode::spec_from(code).spec_icon_name(false) == "extreme-day-rain.svg"@,
        code == 66 ==> WmoWeatherCode::spec_from(code).spec_description() == "Light freezing rain"@
            && WmoWeatherCode::spec_from(code).spec_icon_name(false) == "partly-cloudy-day-sleet.svg"@,
        code == 67 ==> WmoWeatherCode::spec_from(code).spec_description() == "Heavy freezing rain"@
            && WmoWeatherCode::spec_from(code).spec_icon_name(false) == "extreme-day-sleet.svg"@,
        code == 71 ==> WmoWeatherCode::spec_from(code).spec_description() == "Slight snow"@
            && WmoWeatherCode::spec_from(code).spec_icon_name(false) == "partly-cloudy-day-snow.svg"@,
        code == 73 ==> WmoWeatherCode::spec_from(code).spec_description() == "Moderate snow"@
            && WmoWeatherCode::spec_from(code).spec_icon_name(false) == "overcast-day-snow.svg"@,
        code == 75 ==> WmoWeatherCode::spec_from(code).spec_description() == "Heavy snow"@
            && WmoWeatherCode::spec_from(code).spec_icon_name(false) == "extreme-day-snow.svg"@,
        code == 77 ==> WmoWeatherCode::spec_from(code).spec_description() == "Snow grains"@
            && WmoWeatherCode::spec_from(code).spec_icon_name(false) == "overcast-day-snow-grains.svg"@,
        code == 80 ==> WmoWeatherCode::spec_from(code).spec_description() == "Slight rain showers"@
            && WmoWeatherCode::spec_from(code).spec_icon_name(false) == "partly-cloudy-day-rain.svg"@,
        code == 81 ==> WmoWeatherCode::spec_from(code).spec_description() == "Moderate rain showers"@
            && WmoWeatherCode::spec_from(code).spec_icon_name(false) == "overcast-day-rain.svg"@,
        code == 82 ==> WmoWeatherCode::spec_from(code).spec_description() == "Violent rain showers"@
            && WmoWeatherCode::spec_from(code).spec_icon_name(false) == "extreme-day-rain.svg"@,
        code == 85 ==> WmoWeatherCode::spec_from(code).spec_description() == "Slight snow showers"@
            && WmoWeatherCode::spec_from(code).spec_icon_name(false) == "partly-cloudy-day-snow.svg"@,
        code == 86 ==> WmoWeatherCode::spec_from(code).spec_description() == "Heavy snow showers"@
            && WmoWeatherCode::spec_from(code).spec_icon_name(false) == "extreme-day-snow.svg"@,
        code == 95 ==> WmoWeatherCode::spec_from(code).spec_description() == "Thunderstorm"@
            && WmoWeatherCode::spec_from(code).spec_icon_name(false) == "thunderstorms-day.svg"@,
        code == 96 ==> WmoWeatherCode::spec_from(code).spec_description() == "Thunderstorm with slight hail"@
            && WmoWeatherCode::spec_from(code).spec_icon_name(false) == "thunderstorms-day-hail.svg"@,
        code == 99 ==> WmoWeatherCode::spec_from(code).spec_description() == "Thunderstorm with heavy hail"@
            && WmoWeatherCode::spec_from(code).spec_icon_name(false) == "thunderstorms-day-extreme-hail.svg"@,
{
    reveal_strlit("clear");
    reveal_strlit("mainly-clear");
    reveal_strlit("partly-cloudy");
    reveal_strlit("overcast");
    reveal_strlit("fog");
    reveal_strlit("extreme");
    reveal_strlit("thunderstorms");
    reveal_strlit("-day");
    reveal_strlit("-drizzle");
    reveal_strlit("-sleet");
    reveal_strlit("-rain");
    reveal_strlit("-snow");
    reveal_strlit("-hail");
    reveal_strlit("-");
    reveal_strlit(".svg");
    reveal_strlit("-snow-grains.svg");
    if code == 0 {
        reveal_strlit("clear-day.svg");
        assert(WmoWeatherCode::ClearSky.spec_icon_name(false) =~= "clear-day.svg"@);
    }
    if code == 1 {
        reveal_strlit("mainly-clear-day.svg");
        assert(WmoWeatherCode::MainlyClear.spec_icon_name(false) =~= "mainly-clear-day.svg"@);
    }
    if code == 2 {
        reveal_strlit("partly-cloudy-day.svg");
        assert(WmoWeatherCode::PartlyCloudy.spec_icon_name(false) =~= "partly-cloudy-day.svg"@);
    }
    if code == 3 {
        reveal_strlit("overcast-day.svg");
        assert(WmoWeatherCode::Overcast.spec_icon_name(false) =~= "overcast-day.svg"@);
    }
    if code == 45 {
        reveal_strlit("fog-day.svg");
        assert(WmoWeatherCode::Fog.spec_icon_name(false) =~= "fog-day.svg"@);
    }
    if code == 48 {
        reveal_strlit("fog-day.svg");
        assert(WmoWeatherCode::RimeFog.spec_icon_name(false) =~= "fog-day.svg"@);
    }
    if code == 51 {
        reveal_strlit("partly-cloudy-day-drizzle.svg");
        assert(WmoWeatherCode::DrizzleLight.spec_icon_name(false) =~= "partly-cloudy-day-drizzle.svg"@);
    }
    if code == 53 {
        reveal_strlit("overcast-day-drizzle.svg");
        assert(WmoWeatherCode::DrizzleModerate.spec_icon_name(false) =~= "overcast-day-drizzle.svg"@);
    }
    if code == 55 {
        reveal_strlit("extreme-day-drizzle.svg");
        assert(WmoWeatherCode::DrizzleDense.spec_icon_name(false) =~= "extreme-day-drizzle.svg"@);
    }
    if code == 56 {
        reveal_strlit("partly-cloudy-day-sleet.svg");
        assert(WmoWeatherCode::FreezingDrizzleLight.spec_icon_name(false) =~= "partly-cloudy-day-sleet.svg"@);
    }
    if code == 57 {
        reveal_strlit("overcast-day-sleet.svg");
        assert(WmoWeatherCode::FreezingDrizzleDense.spec_icon_name(false) =~= "overcast-day-sleet.svg"@);
    }
    if code == 61 {
        reveal_strlit("partly-cloudy-day-rain.svg");
        assert(WmoWeatherCode::RainSlight.spec_icon_name(false) =~= "partly-cloudy-day-rain.svg"@);
    }
    if code == 63 {
        reveal_strlit("overcast-day-rain.svg");
        assert(WmoWeatherCode::RainModerate.spec_icon_name(false) =~= "overcast-day-rain.svg"@);
    }
    if code == 65 {
        reveal_strlit("extreme-day-rain.svg");
        assert(WmoWeatherCode::RainHeavy.spec_icon_name(false) =~= "extreme-day-rain.svg"@);
    }
    if code == 66 {
        reveal_strlit("partly-cloudy-day-sleet.svg");
        assert(WmoWeatherCode::FreezingRainLight.spec_icon_name(false) =~= "partly-cloudy-day-sleet.svg"@);
    }
    if code == 67 {
        reveal_strlit("extreme-day-sleet.svg");
        assert(WmoWeatherCode::FreezingRainHeavy.spec_icon_name(false) =~= "extreme-day-sleet.svg"@);
    }
    if code == 71 {
        reveal_strlit("partly-cloudy-day-snow.svg");
        assert(WmoWeatherCode::SnowSlight.spec_icon_name(false) =~= "partly-cloudy-day-snow.svg"@);
    }
    if code == 73 {
        reveal_strlit("overcast-day-snow.svg");
        assert(WmoWeatherCode::SnowModerate.spec_icon_name(false) =~= "overcast-day-snow.svg"@);
    }
    if code == 75 {
        reveal_strlit("extreme-day-snow.svg");
        assert(WmoWeatherCode::SnowHeavy.spec_icon_name(false) =~= "extreme-day-snow.svg"@);
    }
    if code == 77 {
        reveal_strlit("overcast-day-snow-grains.svg");
        assert(WmoWeatherCode::SnowGrains.spec_icon_name(false) =~= "overcast-day-snow-grains.svg"@);
    }
    if code == 80 {
        reveal_strlit("partly-cloudy-day-rain.svg");
        assert(WmoWeatherCode::RainShowersSlight.spec_icon_name(false) =~= "partly-cloudy-day-rain.svg"@);
    }
    if code == 81 {
        reveal_strlit("overcast-day-rain.svg");
        assert(WmoWeatherCode::RainShowersModerate.spec_icon_name(false) =~= "overcast-day-rain.svg"@);
    }
    if code == 82 {
        reveal_strlit("extreme-day-rain.svg");
        assert(WmoWeatherCode::RainShowersViolent.spec_icon_name(false) =~= "extreme-day-rain.svg"@);
    }
    if code == 85 {
        reveal_strlit("partly-cloudy-day-snow.svg");
        assert(WmoWeatherCode::SnowShowersSlight.spec_icon_name(false) =~= "partly-cloudy-day-snow.svg"@);
    }
    if code == 86 {
        reveal_strlit("extreme-day-snow.svg");
        assert(WmoWeatherCode::SnowShowersHeavy.spec_icon_name(false) =~= "extreme-day-snow.svg"@);
    }
    if code == 95 {
        reveal_strlit("thunderstorms-day.svg");
        assert(WmoWeatherCode::Thunderstorm.spec_icon_name(false) =~= "thunderstorms-day.svg"@);
    }
    if code == 96 {
        reveal_strlit("thunderstorms-day-hail.svg");
        assert(WmoWeatherCode::ThunderstormHailSlight.spec_icon_name(false) =~= "thunderstorms-day-hail.svg"@);
    }
    if code == 99 {
        reveal_strlit("thunderstorms-day-extreme-hail.svg");
        assert(WmoWeatherCode::ThunderstormHailHeavy.spec_icon_name(false) =~= "thunderstorms-day-extreme-hail.svg"@);
    }
}

} // verus!
