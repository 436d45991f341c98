//! Icon selection for forecasts: WMO codes first, then cloud cover and
//! precipitation, with overrides that keep the combination realistic.
use vstd::prelude::*;
use crate::text::{concat4, ends_with, has_prefix, has_suffix, owned, concat3};
use crate::weather::utils::lemma_moon_icon_names;
use crate::domain::models::{DailyForecast, HourlyForecast, Precipitation, Wind};
use crate::weather::icons::{
    DayNight, Icon, IconContext, PrecipitationChanceName, PrecipitationKind, WindIconName,
};

verus! {

/// The wind icon for a speed in km/h: up to 20, 21 to 40, above 40.
pub open spec fn wind_icon_of(speed: u16) -> WindIconName {
    if speed <= 20 {
        WindIconName::Wind
    } else if speed <= 40 {
        WindIconName::UmbrellaWind
    } else {
        WindIconName::UmbrellaWindAlt
    }
}

/// The wind icon grows with the shown speed (the gust speed when gusts are
/// preferred, the sustained speed otherwise): up to 20 km/h the plain wind
/// icon, 21 to 40 km/h the umbrella icon, above 40 km/h the strong-wind
/// umbrella icon.
pub proof fn lemma_wind_icon_thresholds(w: Wind, ctx: IconContext)
    ensures
        ({
            let shown = if ctx.render_options.use_gust_instead_of_wind { w.gust_speed_kmh } else { w.speed_kmh };
            &&& shown <= 20 ==> w.icon_name_of(&ctx) == "wind.svg"@
            &&& 20 < shown <= 40 ==> w.icon_name_of(&ctx) == "umbrella-wind.svg"@
            &&& 40 < shown ==> w.icon_name_of(&ctx) == "umbrella-wind-alt.svg"@
        }),
{
}

impl Icon for Wind {
    open spec fn icon_name_of(&self, ctx: &IconContext) -> Seq<char> {
        wind_icon_of(self.spec_speed(ctx.render_options.use_gust_instead_of_wind)).name()
    }

    fn icon_name(&self, ctx: &IconContext) -> (r: String) {
        let speed = self.speed(ctx.render_options.use_gust_instead_of_wind);
        let icon = if speed <= 20 {
            WindIconName::Wind
        } else if speed <= 40 {
            WindIconName::UmbrellaWind
        } else {
            WindIconName::UmbrellaWindAlt
        };
        owned(icon.as_str())
    }
}

/// The clear-night icon file name, which the moon phase can replace.
pub open spec fn clear_night_suffix() -> Seq<char> {
    PrecipitationChanceName::Clear.name() + DayNight::Night.name() + ".svg"@
}

/// The icon after the moon-phase override: a clear-night icon at night is
/// replaced by the moon-phase icon when the option is enabled.
pub open spec fn moon_phase_override_of(icon: Seq<char>, is_night: bool, ctx: IconContext) -> Seq<char> {
    if is_night && ctx.render_options.use_moon_phase_instead_of_clear_night
        && has_suffix(icon, clear_night_suffix()) {
        ctx.moon_phase.name()
    } else {
        icon
    }
}

/// If `use_moon_phase_instead_of_clear_night` is enabled and the icon
/// represents a clear night, replaces it with the current moon phase icon.
fn apply_moon_phase_override(icon: String, is_night: bool, ctx: &IconContext) -> (r: String)
    ensures
        r@ == moon_phase_override_of(icon@, is_night, *ctx),
{
    if !is_night || !ctx.render_options.use_moon_phase_instead_of_clear_night {
        return icon;
    }
    let clear_night_suffix = concat3(
        PrecipitationChanceName::Clear.as_str(),
        DayNight::Night.as_str(),
        ".svg",
    );
    if ends_with(icon.as_str(), clear_night_suffix.as_str()) {
        owned(ctx.moon_phase.as_str())
    } else {
        icon
    }
}

/// The cloud level of a percentage (0–25, 26–50, 51–75, above 75).
pub open spec fn cloud_name_of(pct: u16) -> PrecipitationChanceName {
    if pct <= 25 {
        PrecipitationChanceName::Clear
    } else if pct <= 50 {
        PrecipitationChanceName::PartlyCloudy
    } else if pct <= 75 {
        PrecipitationChanceName::Overcast
    } else {
        PrecipitationChanceName::Extreme
    }
}

/// Converts a percentage (0–100) to a `PrecipitationChanceName`.
/// Used for both cloud cover data and precipitation chance fallback.
pub fn percentage_to_cloud_name(pct: u16) -> (r: PrecipitationChanceName)
    ensures
        r == cloud_name_of(pct),
{
    if pct <= 25 {
        PrecipitationChanceName::Clear
    } else if pct <= 50 {
        PrecipitationChanceName::PartlyCloudy
    } else if pct <= 75 {
        PrecipitationChanceName::Overcast
    } else {
        PrecipitationChanceName::Extreme
    }
}

/// The amount used for classification in tenths of a millimetre; hourly
/// amounts are scaled by 24 to a daily equivalent.
pub open spec fn classified_tenths(precip: Precipitation, is_hourly: bool) -> nat {
    if is_hourly {
        5 * precip.amount_halves() * 24
    } else {
        5 * precip.amount_halves()
    }
}

/// The precipitation kind of an amount: primarily snow below 1.4 mm is
/// nothing and snow otherwise; other precipitation below 3 mm is nothing,
/// 3–20 mm drizzle and above 20 mm rain.
pub open spec fn amount_kind_of(precip: Precipitation, is_hourly: bool) -> Option<PrecipitationKind> {
    let tenths = classified_tenths(precip, is_hourly);
    if precip.spec_is_primarily_snow() {
        if tenths < 14 { None } else { Some(PrecipitationKind::Snow) }
    } else if tenths < 30 {
        None
    } else if tenths <= 200 {
        Some(PrecipitationKind::Drizzle)
    } else {
        Some(PrecipitationKind::Rain)
    }
}

/// Converts the precipitation amount to a corresponding `PrecipitationKind`.
/// Returns `None` when there is no meaningful precipitation.
///
/// `is_hourly`: if true, scales the amount to a daily equivalent before classifying.
pub fn precipitation_amount_to_name(precip: &Precipitation, is_hourly: bool) -> (r: Option<PrecipitationKind>)
    ensures
        r == amount_kind_of(*precip, is_hourly),
{
    let halves: u64 = precip.amount_in_halves() as u64;
    let tenths: u64 = if is_hourly { 5 * halves * 24 } else { 5 * halves };
    if precip.is_primarily_snow() {
        return if tenths < 14 { None } else { Some(PrecipitationKind::Snow) };
    }
    if tenths < 30 {
        None
    } else if tenths <= 200 {
        Some(PrecipitationKind::Drizzle)
    } else {
        Some(PrecipitationKind::Rain)
    }
}

/// The cloud level raised to what the precipitation needs: drizzle, snow
/// and sleet need at least partly cloudy; rain and hail at least overcast.
pub open spec fn override_of(cloud: PrecipitationChanceName, kind: Option<PrecipitationKind>) -> PrecipitationChanceName {
    match kind {
        None => cloud,
        Some(PrecipitationKind::Rain) | Some(PrecipitationKind::Hail) => match cloud {
            PrecipitationChanceName::Clear | PrecipitationChanceName::PartlyCloudy => PrecipitationChanceName::Overcast,
            _ => cloud,
        },
        Some(_) => match cloud {
            PrecipitationChanceName::Clear => PrecipitationChanceName::PartlyCloudy,
            _ => cloud,
        },
    }
}

/// Ensures precipitation amount requires minimum cloud coverage.
/// Heavy precipitation cannot occur with completely clear skies.
pub fn apply_precipitation_override(
    cloud_name: PrecipitationChanceName,
    amount_name: Option<PrecipitationKind>,
) -> (r: PrecipitationChanceName)
    ensures
        r == override_of(cloud_name, amount_name),
{
    let kind = match amount_name {
        None => { return cloud_name; },
        Some(k) => k,
    };
    match kind {
        PrecipitationKind::Drizzle | PrecipitationKind::Snow | PrecipitationKind::Sleet => {
            match cloud_name {
                PrecipitationChanceName::Clear => PrecipitationChanceName::PartlyCloudy,
                _ => cloud_name,
            }
        },
        PrecipitationKind::Rain | PrecipitationKind::Hail => {
            match cloud_name {
                PrecipitationChanceName::Clear | PrecipitationChanceName::PartlyCloudy => {
                    PrecipitationChanceName::Overcast
                },
                _ => cloud_name,
            }
        },
    }
}

/// The suffix of a precipitation kind, empty when there is none.
pub open spec fn kind_suffix(kind: Option<PrecipitationKind>) -> Seq<char> {
    match kind {
        Some(k) => k.name(),
        None => Seq::empty(),
    }
}

/// Icon from cloud cover (or, without it, the precipitation chance) and the
/// precipitation amount, after the override.
pub open spec fn derived_icon_of(
    cloud_cover: Option<u16>,
    precip: Precipitation,
    is_hourly: bool,
    day_night: DayNight,
) -> Seq<char> {
    let pct = match cloud_cover {
        Some(c) => c,
        None => match precip.chance { Some(c) => c, None => 0u16 },
    };
    let kind = amount_kind_of(precip, is_hourly);
    override_of(cloud_name_of(pct), kind).name() + day_night.name() + kind_suffix(kind) + ".svg"@
}

fn derived_icon(
    cloud_cover: Option<u16>,
    precip: &Precipitation,
    is_hourly: bool,
    day_night: DayNight,
) -> (r: String)
    ensures
        r@ == derived_icon_of(cloud_cover, *precip, is_hourly, day_night),
{
    let raw_cloud_name = match cloud_cover {
        Some(c) => percentage_to_cloud_name(c),
        None => percentage_to_cloud_name(match precip.chance { Some(c) => c, None => 0 }),
    };
    let amount_name = precipitation_amount_to_name(precip, is_hourly);
    let cloud_name = apply_precipitation_override(raw_cloud_name, amount_name);
    let suffix: &str = match amount_name {
        Some(k) => k.as_str(),
        None => {
            proof {
                reveal_strlit("");
            }
            ""
        },
    };
    concat4(cloud_name.as_str(), day_night.as_str(), suffix, ".svg")
}

impl Icon for DailyForecast {
    /// WMO code when preferred and recognised; otherwise the derived day
    /// icon; a clear day without precipitation data.
    open spec fn icon_name_of(&self, ctx: &IconContext) -> Seq<char> {
        match self.weather_code {
            Some(Ok(code)) if ctx.render_options.prefer_weather_codes => code.spec_icon_name(false),
            _ => match self.precipitation {
                Some(p) => derived_icon_of(self.cloud_cover, p, false, DayNight::Day),
                None => PrecipitationChanceName::Clear.name() + DayNight::Day.name() + ".svg"@,
            },
        }
    }

    fn icon_name(&self, ctx: &IconContext) -> (r: String) {
        if ctx.render_options.prefer_weather_codes {
            if let Some(Ok(wmo_code)) = self.weather_code {
                return wmo_code.icon_name(false);
            }
        }
        match &self.precipitation {
            Some(precip) => derived_icon(self.cloud_cover, precip, false, DayNight::Day),
            None => concat3(PrecipitationChanceName::Clear.as_str(), DayNight::Day.as_str(), ".svg"),
        }
    }
}

/// The hourly icon before the moon-phase override: the WMO code's icon when
/// codes are preferred and the code is recognised, otherwise the icon derived
/// from cloud cover and precipitation for the hour's day or night.
pub open spec fn hourly_base_icon(h: HourlyForecast, ctx: IconContext) -> Seq<char> {
    match h.weather_code {
        Some(Ok(code)) if ctx.render_options.prefer_weather_codes => code.spec_icon_name(h.is_night),
        _ => derived_icon_of(h.cloud_cover, h.precipitation, true, DayNight::of(h.is_night)),
    }
}

/// With the moon-phase option on, every night hour whose own icon is a clear
/// night shows the context's moon-phase icon: a `moon-` icon that depends on
/// the context alone, so two such hours under one context show the same icon.
pub proof fn lemma_moon_override_depends_on_context(h1: HourlyForecast, h2: HourlyForecast, ctx: IconContext)
    requires
        ctx.render_options.use_moon_phase_instead_of_clear_night,
        h1.is_night,
        h2.is_night,
        has_suffix(hourly_base_icon(h1, ctx), clear_night_suffix()),
        has_suffix(hourly_base_icon(h2, ctx), clear_night_suffix()),
    ensures
        h1.icon_name_of(&ctx) == ctx.moon_phase.name(),
        h1.icon_name_of(&ctx) == h2.icon_name_of(&ctx),
        has_prefix(h1.icon_name_of(&ctx), "moon-"@),
{
    lemma_moon_icon_names(ctx.moon_phase);
}

impl Icon for HourlyForecast {
    /// WMO code when preferred and recognised, otherwise the derived icon
    /// for the hour's day or night; then the moon-phase override.
    open spec fn icon_name_of(&self, ctx: &IconContext) -> Seq<char> {
        moon_phase_override_of(hourly_base_icon(*self, *ctx), self.is_night, *ctx)
    }

    fn icon_name(&self, ctx: &IconContext) -> (r: String) {
        if ctx.render_options.prefer_weather_codes {
            if let Some(Ok(wmo_code)) = self.weather_code {
                let icon = wmo_code.icon_name(self.is_night);
                return apply_moon_phase_override(icon, self.is_night, ctx);
            }
        }
        let day_night = DayNight::from_is_night(self.is_night);
        let icon = derived_icon(self.cloud_cover, &self.precipitation, true, day_night);
        apply_moon_phase_override(icon, self.is_night, ctx)
    }
}

/// The order of the cloud levels, from clear to extreme.
pub open spec fn cloud_rank(c: PrecipitationChanceName) -> nat {
    match c {
        PrecipitationChanceName::Clear => 0,
        PrecipitationChanceName::PartlyCloudy => 1,
        PrecipitationChanceName::Overcast => 2,
        PrecipitationChanceName::Extreme => 3,
    }
}

/// Cloud levels by percentage: up to 25 % clear, 26–50 % partly cloudy,
/// 51–75 % overcast, above 75 % extreme; a higher percentage never gives a
/// lower level.
pub proof fn lemma_cloud_levels(pct: u16, other: u16)
    ensures
        pct <= 25 ==> cloud_name_of(pct).name() == "clear"@,
        25 < pct <= 50 ==> cloud_name_of(pct).name() == "partly-cloudy"@,
        50 < pct <= 75 ==> cloud_name_of(pct).name() == "overcast"@,
        75 < pct ==> cloud_name_of(pct).name() == "extreme"@,
        pct <= other ==> cloud_rank(cloud_name_of(pct)) <= cloud_rank(cloud_name_of(other)),
{
}

/// Precipitation kinds by daily amount (hourly amounts count 24 times):
/// mainly snow from 1.4 mm is snow; otherwise under 3 mm is nothing, 3 to
/// 20 mm drizzle and more rain. Snow below 1.4 mm shows nothing.
pub proof fn lemma_precipitation_kinds(precip: Precipitation, is_hourly: bool)
    ensures
        ({
            let mm_tenths = if is_hourly { 120 * precip.amount_halves() } else { 5 * precip.amount_halves() };
            &&& precip.spec_is_primarily_snow() && mm_tenths < 14 ==> amount_kind_of(precip, is_hourly) is None
            &&& precip.spec_is_primarily_snow() && mm_tenths >= 14 ==> amount_kind_of(precip, is_hourly) == Some(PrecipitationKind::Snow)
            &&& !precip.spec_is_primarily_snow() && mm_tenths < 30 ==> amount_kind_of(precip, is_hourly) is None
            &&& !precip.spec_is_primarily_snow() && 30 <= mm_tenths <= 200 ==> amount_kind_of(precip, is_hourly) == Some(PrecipitationKind::Drizzle)
            &&& !precip.spec_is_primarily_snow() && mm_tenths > 200 ==> amount_kind_of(precip, is_hourly) == Some(PrecipitationKind::Rain)
        }),
{
}

/// Precipitation needs clouds: the override never lowers the cloud level,
/// rain and hail show at least overcast, drizzle, snow and sleet at least
/// partly cloudy, and without precipitation the level is kept.
pub proof fn lemma_precipitation_needs_clouds(cloud: PrecipitationChanceName, kind: Option<PrecipitationKind>)
    ensures
        cloud_rank(override_of(cloud, kind)) >= cloud_rank(cloud),
        kind is None ==> override_of(cloud, kind) == cloud,
        kind == Some(PrecipitationKind::Rain) || kind == Some(PrecipitationKind::Hail)
            ==> cloud_rank(override_of(cloud, kind)) >= 2,
        kind is Some ==> cloud_rank(override_of(cloud, kind)) >= 1,
        cloud_rank(cloud) >= 2 ==> override_of(cloud, kind) == cloud,
{
}

} // verus!
