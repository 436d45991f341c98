//! Configuration value types: providers, units, validated newtypes and the
//! render options that icon selection and the dashboard read.
use vstd::prelude::*;
use crate::text::{owned, trim, trim_spec};
use crate::configs::validation::{
    clean_colour, colour_check_panics, float_form_accepts, float_forms_ok, is_exact_colour_text,
    is_valid_colour, ValidationError, date_format_problem, is_valid_date_format,
};

verus! {

/// Weather data providers.
#[derive(Debug, Clone, Copy, PartialEq, Eq, Structural)]
pub enum Providers {
    Bom,
    OpenMeteo,
}

impl Providers {
    /// The provider's display name.
    pub open spec fn name(self) -> Seq<char> {
        match self {
            Providers::Bom => "Bom"@,
            Providers::OpenMeteo => "OpenMeteo"@,
        }
    }

    /// The provider's display name.
    pub fn as_str(&self) -> (r: &'static str)
        ensures
            r@ == self.name(),
    {
        match self {
            Providers::Bom => "Bom",
            Providers::OpenMeteo => "OpenMeteo",
        }
    }
}

/// Temperature units.
#[derive(Debug, Clone, Copy, PartialEq, Eq, Structural)]
pub enum TemperatureUnit {
    C,
    F,
}

impl TemperatureUnit {
    /// The unit's symbol.
    pub open spec fn name(self) -> Seq<char> {
        match self {
            TemperatureUnit::C => "C"@,
            TemperatureUnit::F => "F"@,
        }
    }

    /// The unit's symbol.
    pub fn as_str(&self) -> (r: &'static str)
        ensures
            r@ == self.name(),
    {
        match self {
            TemperatureUnit::C => "C",
            TemperatureUnit::F => "F",
        }
    }
}

/// Wind speed units.
#[derive(Debug, Clone, Copy, PartialEq, Eq, Structural)]
pub enum WindSpeedUnit {
    KmH,
    Mph,
    Knots,
}

impl WindSpeedUnit {
    /// The unit's label.
    pub open spec fn name(self) -> Seq<char> {
        match self {
            WindSpeedUnit::KmH => "km/h"@,
            WindSpeedUnit::Mph => "mph"@,
            WindSpeedUnit::Knots => "knots"@,
        }
    }

    /// The unit's label.
    pub fn as_str(&self) -> (r: &'static str)
        ensures
            r@ == self.name(),
    {
        match self {
            WindSpeedUnit::KmH => "km/h",
            WindSpeedUnit::Mph => "mph",
            WindSpeedUnit::Knots => "knots",
        }
    }
}

/// A colour accepted by the colour validation, stored trimmed.
#[derive(Debug, Clone)]
pub struct Colour {
    value: String,
}

impl Colour {
    /// The stored colour text.
    pub closed spec fn view_colour(&self) -> Seq<char> {
        self.value@
    }

    /// Trims `value` and validates it as a colour; `float_forms` checks the
    /// `rgba`, `hsl` and `hsla` forms.
    pub fn try_new<F: Fn(&str) -> bool>(value: &str, float_forms: F) -> (r: Result<Colour, ValidationError>)
        requires
            float_forms_ok(float_forms),
            !colour_check_panics(clean_colour(trim_spec(value@))),
            value@.len() < usize::MAX / 4,
        ensures
            r is Ok <==> (is_exact_colour_text(clean_colour(trim_spec(value@)))
                || float_form_accepts(float_forms, clean_colour(trim_spec(value@)))),
            r matches Ok(c) ==> c.view_colour() == trim_spec(value@),
            r matches Err(e) ==> e.message@ == "Invalid colour format"@,
    {
        let t = trim(value);
        proof {
            crate::text::lemma_trim_spec_len(value@);
        }
        match is_valid_colour(t.as_str(), float_forms) {
            Ok(()) => Ok(Colour { value: t }),
            Err(e) => Err(e),
        }
    }

    /// The colour text.
    pub fn as_str(&self) -> (r: &str)
        ensures
            r@ == self.view_colour(),
    {
        self.value.as_str()
    }

    /// The colour text.
    pub fn into_inner(self) -> (r: String)
        ensures
            r@ == self.view_colour(),
    {
        self.value
    }
}

/// `str::to_lowercase`: the Unicode lowercase mapping of each character.
pub uninterp spec fn unicode_lowercase(s: Seq<char>) -> Seq<char>;

/// `str::to_lowercase`. The contract only names the result.
#[verifier::external_body]
fn lowercase(s: &str) -> (r: String)
    ensures
        r@ == unicode_lowercase(s@),
{
    s.to_lowercase()
}

/// Why a geohash was rejected.
#[derive(Debug, Clone, Copy, PartialEq, Eq, Structural)]
pub enum GeoHashError {
    /// Fewer than six characters.
    LenCharMinViolated,
    /// More than six characters.
    LenCharMaxViolated,
}

/// A six-character geohash, trimmed and lowercased.
#[derive(Debug, Clone)]
pub struct GeoHash {
    value: String,
}

impl GeoHash {
    /// The stored geohash.
    pub closed spec fn view_hash(&self) -> Seq<char> {
        self.value@
    }

    /// Trims and lowercases `value`, then accepts it when it has exactly six
    /// characters.
    pub fn try_new(value: &str) -> (r: Result<GeoHash, GeoHashError>)
        ensures
            ({
                let v = unicode_lowercase(trim_spec(value@));
                &&& v.len() < 6 ==> r == Err::<GeoHash, GeoHashError>(GeoHashError::LenCharMinViolated)
                &&& v.len() > 6 ==> r == Err::<GeoHash, GeoHashError>(GeoHashError::LenCharMaxViolated)
                &&& v.len() == 6 ==> (r matches Ok(g) && g.view_hash() == v)
            }),
    {
        let t = trim(value);
        let v = lowercase(t.as_str());
        let n = v.as_str().unicode_len();
        if n < 6 {
            Err(GeoHashError::LenCharMinViolated)
        } else if n > 6 {
            Err(GeoHashError::LenCharMaxViolated)
        } else {
            Ok(GeoHash { value: v })
        }
    }

    /// The geohash text.
    pub fn as_str(&self) -> (r: &str)
        ensures
            r@ == self.view_hash(),
    {
        self.value.as_str()
    }
}

/// Days between automatic update checks; 0 disables them.
#[derive(Debug, Clone, Copy, PartialEq, Eq, Structural)]
pub struct UpdateIntervalDays {
    days: i32,
}

impl UpdateIntervalDays {
    /// The number of days.
    pub closed spec fn view_days(&self) -> i32 {
        self.days
    }

    /// Accepts a number of days that is not negative.
    pub fn try_new(days: i32) -> (r: Result<UpdateIntervalDays, ValidationError>)
        ensures
            r is Ok <==> days >= 0,
            r matches Ok(d) ==> d.view_days() == days,
            r matches Err(e) ==> e.message@ == "Update interval days must be greater than or equal to 0"@,
    {
        if days >= 0 {
            Ok(UpdateIntervalDays { days })
        } else {
            Err(ValidationError::new("Update interval days must be greater than or equal to 0"))
        }
    }

    /// The number of days.
    pub fn into_inner(&self) -> (r: i32)
        ensures
            r == self.view_days(),
            r >= 0,
    {
        proof {
            use_type_invariant(self);
        }
        self.days
    }

    #[verifier::type_invariant]
    spec fn non_negative(self) -> bool {
        self.days >= 0
    }
}

/// The colours of the dashboard's elements.
#[derive(Debug, Clone)]
pub struct Colours {
    pub background_colour: Colour,
    pub text_colour: Colour,
    pub x_axis_colour: Colour,
    pub y_left_axis_colour: Colour,
    pub y_right_axis_colour: Colour,
    pub actual_temp_colour: Colour,
    pub feels_like_colour: Colour,
    pub rain_colour: Colour,
    pub snow_colour: Colour,
}

/// Release and update settings that the update decisions read.
#[derive(Debug, Clone, Copy)]
pub struct Release {
    pub update_interval_days: UpdateIntervalDays,
    pub allow_pre_release_version: bool,
}

/// The message of the rejected combination of release settings.
pub open spec fn pre_release_conflict_message() -> Seq<char> {
    "Configuration validation failed: `allow_pre_release_version` cannot be enabled when `update_interval_days` is 0 (auto-updating is disabled)"@
}

/// Validates cross-field constraints on release settings: opting in to
/// pre-releases while auto-updating is disabled (interval 0) is rejected.
pub fn validate_release_cross_fields(
    update_interval_days: UpdateIntervalDays,
    allow_pre_release_version: bool,
) -> (r: Result<(), String>)
    ensures
        r is Err <==> (allow_pre_release_version && update_interval_days.view_days() == 0),
        r matches Err(m) ==> m@ == pre_release_conflict_message(),
{
    if allow_pre_release_version && update_interval_days.into_inner() == 0 {
        return Err(owned(
            "Configuration validation failed: `allow_pre_release_version` cannot be enabled when `update_interval_days` is 0 (auto-updating is disabled)",
        ));
    }
    Ok(())
}

/// A strftime date format accepted by the validation rules.
#[derive(Debug, Clone)]
pub struct DateFormat {
    pub(crate) format: String,
}

impl DateFormat {
    /// Trims `value` and validates it as a date format.
    pub fn try_new(value: &str) -> (r: Result<DateFormat, ValidationError>)
        ensures
            match date_format_problem(trim_spec(value@)) {
                Some(m) => r matches Err(e) && e.message@ == m,
                None => r matches Ok(d) && d.view_format() == trim_spec(value@),
            },
    {
        let t = trim(value);
        match is_valid_date_format(t.as_str()) {
            Ok(()) => Ok(DateFormat { format: t }),
            Err(e) => Err(e),
        }
    }

    /// The format string.
    pub closed spec fn view_format(&self) -> Seq<char> {
        self.format@
    }

    /// The format string.
    pub fn as_str(&self) -> (r: &str)
        ensures
            r@ == self.view_format(),
    {
        self.format.as_str()
    }
}

/// Options that control how the dashboard is drawn.
#[derive(Debug, Clone)]
pub struct RenderOptions {
    pub temp_unit: TemperatureUnit,
    pub wind_speed_unit: WindSpeedUnit,
    pub date_format: DateFormat,
    pub use_moon_phase_instead_of_clear_night: bool,
    pub x_axis_always_at_min: bool,
    pub use_gust_instead_of_wind: bool,
    pub prefer_weather_codes: bool,
}

/// Development and debug switches.
#[derive(Debug, Clone, Copy)]
pub struct Dev {
    pub disable_weather_api_requests: bool,
    pub disable_png_output: bool,
    pub enable_debug_logs: bool,
}

} // verus!
