//! Icon names used by the dashboard and the context that icon selection reads.
use vstd::prelude::*;
use crate::text::{owned, push_char};
use crate::configs::settings::RenderOptions;
use crate::weather::utils::MoonPhaseIconName;

verus! {

/// The subset of settings that icon rendering depends on.
#[derive(Debug, Clone)]
pub struct IconContext {
    /// Directory that holds the SVG icons.
    pub svg_icons_directory: String,
    pub render_options: RenderOptions,
    /// Moon phase of the context's date, resolved once from the injected clock.
    pub moon_phase: MoonPhaseIconName,
}

/// `dir` joined with the relative file name `name`, as `Path::join` does on
/// Unix: a separator is inserted unless `dir` is empty or already ends in `/`.
pub open spec fn join_path(dir: Seq<char>, name: Seq<char>) -> Seq<char> {
    if dir.len() == 0 || dir.last() == '/' {
        dir + name
    } else {
        dir + seq!['/'] + name
    }
}

/// Joins the icon directory with an icon file name.
pub fn icon_path_in(dir: &str, name: &str) -> (r: String)
    ensures
        r@ == join_path(dir@, name@),
{
    let mut r = owned(dir);
    let n = dir.unicode_len();
    if n > 0 && dir.get_char(n - 1) != '/' {
        push_char(&mut r, '/');
    }
    r.append(name);
    r
}

/// An icon with a file name and a path under the icon directory.
pub trait Icon {
    /// The icon's file name in the given context.
    spec fn icon_name_of(&self, ctx: &IconContext) -> Seq<char>;

    /// Returns the name of the icon.
    fn icon_name(&self, ctx: &IconContext) -> (r: String)
        ensures
            r@ == self.icon_name_of(ctx),
    ;

    /// Returns the path of the icon: the icon directory joined with its name.
    fn icon_path(&self, ctx: &IconContext) -> (r: String)
        ensures
            r@ == join_path(ctx.svg_icons_directory@, self.icon_name_of(ctx)),
    {
        let name = self.icon_name(ctx);
        icon_path_in(ctx.svg_icons_directory.as_str(), name.as_str())
    }
}

/// Cloud-cover levels of a weather icon.
#[derive(Debug, Clone, Copy, PartialEq, Eq, Structural)]
pub enum PrecipitationChanceName {
    Clear,
    PartlyCloudy,
    Overcast,
    Extreme,
}

impl PrecipitationChanceName {
    pub open spec fn name(self) -> Seq<char> {
        match self {
            PrecipitationChanceName::Clear => "clear"@,
            PrecipitationChanceName::PartlyCloudy => "partly-cloudy"@,
            PrecipitationChanceName::Overcast => "overcast"@,
            PrecipitationChanceName::Extreme => "extreme"@,
        }
    }

    /// The name fragment.
    pub fn as_str(&self) -> (r: &'static str)
        ensures
            r@ == self.name(),
    {
        match self {
            PrecipitationChanceName::Clear => "clear",
            PrecipitationChanceName::PartlyCloudy => "partly-cloudy",
            PrecipitationChanceName::Overcast => "overcast",
            PrecipitationChanceName::Extreme => "extreme",
        }
    }
}

/// Kinds of precipitation, shown as an icon-name suffix.
#[derive(Debug, Clone, Copy, PartialEq, Eq, Structural)]
pub enum PrecipitationKind {
    Drizzle,
    Rain,
    Snow,
    Sleet,
    Hail,
}

impl PrecipitationKind {
    pub open spec fn name(self) -> Seq<char> {
        match self {
            PrecipitationKind::Drizzle => "-drizzle"@,
            PrecipitationKind::Rain => "-rain"@,
            PrecipitationKind::Snow => "-snow"@,
            PrecipitationKind::Sleet => "-sleet"@,
            PrecipitationKind::Hail => "-hail"@,
        }
    }

    /// The suffix.
    pub fn as_str(&self) -> (r: &'static str)
        ensures
            r@ == self.name(),
    {
        match self {
            PrecipitationKind::Drizzle => "-drizzle",
            PrecipitationKind::Rain => "-rain",
            PrecipitationKind::Snow => "-snow",
            PrecipitationKind::Sleet => "-sleet",
            PrecipitationKind::Hail => "-hail",
        }
    }
}

/// Day or night variant of an icon.
#[derive(Debug, Clone, Copy, PartialEq, Eq, Structural)]
pub enum DayNight {
    Day,
    Night,
}

impl DayNight {
    pub open spec fn name(self) -> Seq<char> {
        match self {
            DayNight::Day => "-day"@,
            DayNight::Night => "-night"@,
        }
    }

    /// The variant for the given time of day.
    pub open spec fn of(is_night: bool) -> DayNight {
        if is_night { DayNight::Night } else { DayNight::Day }
    }

    /// The variant for the given time of day.
    pub fn from_is_night(is_night: bool) -> (r: DayNight)
        ensures
            r == DayNight::of(is_night),
    {
        if is_night { DayNight::Night } else { DayNight::Day }
    }

    /// The suffix.
    pub fn as_str(&self) -> (r: &'static str)
        ensures
            r@ == self.name(),
    {
        match self {
            DayNight::Day => "-day",
            DayNight::Night => "-night",
        }
    }
}

/// Wind icons by strength.
#[derive(Debug, Clone, Copy, PartialEq, Eq, Structural)]
pub enum WindIconName {
    Wind,
    UmbrellaWind,
    UmbrellaWindAlt,
}

impl WindIconName {
    pub open spec fn name(self) -> Seq<char> {
        match self {
            WindIconName::Wind => "wind.svg"@,
            WindIconName::UmbrellaWind => "umbrella-wind.svg"@,
            WindIconName::UmbrellaWindAlt => "umbrella-wind-alt.svg"@,
        }
    }

    pub fn as_str(&self) -> (r: &'static str)
        ensures
            r@ == self.name(),
    {
        match self {
            WindIconName::Wind => "wind.svg",
            WindIconName::UmbrellaWind => "umbrella-wind.svg",
            WindIconName::UmbrellaWindAlt => "umbrella-wind-alt.svg",
        }
    }
}

/// Humidity icons by relative humidity.
#[derive(Debug, Clone, Copy, PartialEq, Eq, Structural)]
pub enum HumidityIconName {
    Humidity,
    HumidityPlus,
    HumidityPlusPlus,
}

impl HumidityIconName {
    pub open spec fn name(self) -> Seq<char> {
        match self {
            HumidityIconName::Humidity => "humidity.svg"@,
            HumidityIconName::HumidityPlus => "humidity-plus.svg"@,
            HumidityIconName::HumidityPlusPlus => "humidity-plus-plus.svg"@,
        }
    }

    /// The icon for a relative humidity percentage: up to 40, 41 to 70, above 70.
    pub open spec fn spec_from(value: u16) -> HumidityIconName {
        if value <= 40 {
            HumidityIconName::Humidity
        } else if value <= 70 {
            HumidityIconName::HumidityPlus
        } else {
            HumidityIconName::HumidityPlusPlus
        }
    }

    pub fn as_str(&self) -> (r: &'static str)
        ensures
            r@ == self.name(),
    {
        match self {
            HumidityIconName::Humidity => "humidity.svg",
            HumidityIconName::HumidityPlus => "humidity-plus.svg",
            HumidityIconName::HumidityPlusPlus => "humidity-plus-plus.svg",
        }
    }
}

impl From<u16> for HumidityIconName {
    fn from(value: u16) -> (r: HumidityIconName) {
        if value <= 40 {
            HumidityIconName::Humidity
        } else if value <= 70 {
            HumidityIconName::HumidityPlus
        } else {
            HumidityIconName::HumidityPlusPlus
        }
    }
}

impl vstd::std_specs::convert::FromSpecImpl<u16> for HumidityIconName {
    open spec fn obeys_from_spec() -> bool {
        true
    }

    open spec fn from_spec(value: u16) -> HumidityIconName {
        HumidityIconName::spec_from(value)
    }
}

/// Sunrise and sunset icons.
#[derive(Debug, Clone, Copy, PartialEq, Eq, Structural)]
pub enum SunPositionIconName {
    Sunrise,
    Sunset,
}

impl SunPositionIconName {
    pub open spec fn name(self) -> Seq<char> {
        match self {
            SunPositionIconName::Sunrise => "sunrise.svg"@,
            SunPositionIconName::Sunset => "sunset.svg"@,
        }
    }

    pub fn as_str(&self) -> (r: &'static str)
        ensures
            r@ == self.name(),
    {
        match self {
            SunPositionIconName::Sunrise => "sunrise.svg",
            SunPositionIconName::Sunset => "sunset.svg",
        }
    }
}

/// Placeholder icon for missing data.
#[derive(Debug, Clone, Copy, PartialEq, Eq, Structural)]
pub enum NotAvailableIcon {
    NotAvailable,
}

impl NotAvailableIcon {
    pub open spec fn name(self) -> Seq<char> {
        "not-available.svg"@
    }

    pub fn as_str(&self) -> (r: &'static str)
        ensures
            r@ == self.name(),
    {
        "not-available.svg"
    }
}

/// The plain humidity icon.
#[derive(Debug, Clone, Copy, PartialEq, Eq, Structural)]
pub enum HumidityIcon {
    Humidity,
}

impl HumidityIcon {
    pub open spec fn name(self) -> Seq<char> {
        "humidity.svg"@
    }

    pub fn as_str(&self) -> (r: &'static str)
        ensures
            r@ == self.name(),
    {
        "humidity.svg"
    }
}

/// UV index bands.
#[derive(Debug, Clone, Copy, PartialEq, Eq, Structural)]
pub enum UVIndexIcon {
    NoUv,
    Low,
    Moderate,
    High,
    VeryHigh,
    Extreme,
}

impl UVIndexIcon {
    pub open spec fn name(self) -> Seq<char> {
        match self {
            UVIndexIcon::NoUv => "uv-index-none.svg"@,
            UVIndexIcon::Low => "uv-index-low.svg"@,
            UVIndexIcon::Moderate => "uv-index-moderate.svg"@,
            UVIndexIcon::High => "uv-index-high.svg"@,
            UVIndexIcon::VeryHigh => "uv-index-very-high.svg"@,
            UVIndexIcon::Extreme => "uv-index-extreme.svg"@,
        }
    }

    /// The band of a UV index: 0, 1-2, 3-5, 6-7, 8-10, 11 and above.
    pub open spec fn spec_from(value: u16) -> UVIndexIcon {
        if value == 0 {
            UVIndexIcon::NoUv
        } else if value <= 2 {
            UVIndexIcon::Low
        } else if value <= 5 {
            UVIndexIcon::Moderate
        } else if value <= 7 {
            UVIndexIcon::High
        } else if value <= 10 {
            UVIndexIcon::VeryHigh
        } else {
            UVIndexIcon::Extreme
        }
    }

    /// The gradient colour of the band; no UV blends into the background.
    pub open spec fn colour(self, background_colour: Seq<char>) -> Seq<char> {
        match self {
            UVIndexIcon::NoUv => background_colour,
            UVIndexIcon::Low => "green"@,
            UVIndexIcon::Moderate => "yellow"@,
            UVIndexIcon::High => "orange"@,
            UVIndexIcon::VeryHigh => "red"@,
            UVIndexIcon::Extreme => "purple"@,
        }
    }

    pub fn as_str(&self) -> (r: &'static str)
        ensures
            r@ == self.name(),
    {
        match self {
            UVIndexIcon::NoUv => "uv-index-none.svg",
            UVIndexIcon::Low => "uv-index-low.svg",
            UVIndexIcon::Moderate => "uv-index-moderate.svg",
            UVIndexIcon::High => "uv-index-high.svg",
            UVIndexIcon::VeryHigh => "uv-index-very-high.svg",
            UVIndexIcon::Extreme => "uv-index-extreme.svg",
        }
    }

    /// Colour for the UV gradient bar. `None` (zero UV, i.e. nighttime) uses
    /// the dashboard's own background colour so it blends into the page.
    pub fn to_colour(self, background_colour: &str) -> (r: String)
        ensures
            r@ == self.colour(background_colour@),
    {
        match self {
            UVIndexIcon::NoUv => owned(background_colour),
            UVIndexIcon::Low => owned("green"),
            UVIndexIcon::Moderate => owned("yellow"),
            UVIndexIcon::High => owned("orange"),
            UVIndexIcon::VeryHigh => owned("red"),
            UVIndexIcon::Extreme => owned("purple"),
        }
    }
}

impl From<u16> for UVIndexIcon {
    fn from(value: u16) -> (r: UVIndexIcon) {
        if value == 0 {
            UVIndexIcon::NoUv
        } else if value <= 2 {
            UVIndexIcon::Low
        } else if value <= 5 {
            UVIndexIcon::Moderate
        } else if value <= 7 {
            UVIndexIcon::High
        } else if value <= 10 {
            UVIndexIcon::VeryHigh
        } else {
            UVIndexIcon::Extreme
        }
    }
}

impl vstd::std_specs::convert::FromSpecImpl<u16> for UVIndexIcon {
    open spec fn obeys_from_spec() -> bool {
        true
    }

    open spec fn from_spec(value: u16) -> UVIndexIcon {
        UVIndexIcon::spec_from(value)
    }
}

impl Icon for SunPositionIconName {
    open spec fn icon_name_of(&self, ctx: &IconContext) -> Seq<char> {
        self.name()
    }

    fn icon_name(&self, ctx: &IconContext) -> (r: String) {
        owned(self.as_str())
    }
}

impl Icon for HumidityIconName {
    open spec fn icon_name_of(&self, ctx: &IconContext) -> Seq<char> {
        self.name()
    }

    fn icon_name(&self, ctx: &IconContext) -> (r: String) {
        owned(self.as_str())
    }
}

impl Icon for UVIndexIcon {
    open spec fn icon_name_of(&self, ctx: &IconContext) -> Seq<char> {
        self.name()
    }

    fn icon_name(&self, ctx: &IconContext) -> (r: String) {
        owned(self.as_str())
    }
}

impl Icon for NotAvailableIcon {
    open spec fn icon_name_of(&self, ctx: &IconContext) -> Seq<char> {
        self.name()
    }

    fn icon_name(&self, ctx: &IconContext) -> (r: String) {
        owned(self.as_str())
    }
}

/// Humidity icons by band: up to 40 % the plain drop, 41 to 70 % one plus,
/// above 70 % two pluses.
pub proof fn lemma_humidity_icon_bands(value: u16)
    ensures
        value <= 40 ==> HumidityIconName::spec_from(value).name() == "humidity.svg"@,
        40 < value <= 70 ==> HumidityIconName::spec_from(value).name() == "humidity-plus.svg"@,
        70 < value ==> HumidityIconName::spec_from(value).name() == "humidity-plus-plus.svg"@,
{
}

/// UV icons and gradient colours by band: 0 none (the background colour),
/// 1–2 low (green), 3–5 moderate (yellow), 6–7 high (orange), 8–10 very
/// high (red), 11 and above extreme (purple).
pub proof fn lemma_uv_index_bands(value: u16, background: Seq<char>)
    ensures
        value == 0 ==> UVIndexIcon::spec_from(value).name() == "uv-index-none.svg"@
            && UVIndexIcon::spec_from(value).colour(background) == background,
        1 <= value <= 2 ==> UVIndexIcon::spec_from(value).name() == "uv-index-low.svg"@
            && UVIndexIcon::spec_from(value).colour(background) == "green"@,
        3 <= value <= 5 ==> UVIndexIcon::spec_from(value).name() == "uv-index-moderate.svg"@
            && UVIndexIcon::spec_from(value).colour(background) == "yellow"@,
        6 <= value <= 7 ==> UVIndexIcon::spec_from(value).name() == "uv-index-high.svg"@
            && UVIndexIcon::spec_from(value).colour(background) == "orange"@,
        8 <= value <= 10 ==> UVIndexIcon::spec_from(value).name() == "uv-index-very-high.svg"@
            && UVIndexIcon::spec_from(value).colour(background) == "red"@,
        11 <= value ==> UVIndexIcon::spec_from(value).name() == "uv-index-extreme.svg"@
            && UVIndexIcon::spec_from(value).colour(background) == "purple"@,
{
}

} // verus!
