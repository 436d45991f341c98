//! The error shape of the Open-Meteo API, its forecast columns, and the
//! reading of its date and date-time texts.
use vstd::prelude::*;

verus! {

/// An error response of the Open-Meteo API.
#[derive(Debug, Clone)]
pub struct OpenMeteoError {
    pub error: bool,
    pub reason: String,
}

/// Hourly Open-Meteo data in columns, one entry per hour, with the values
/// already rounded as the dashboard keeps them: temperatures in whole
/// degrees of the display unit, precipitation in whole mm, snowfall in
/// tenths of a centimetre, UV index and wind speeds (km/h) whole.
#[derive(Debug, Clone)]
pub struct HourlyColumns {
    /// Start of each hour, seconds since the epoch (UTC).
    pub time: Vec<i64>,
    pub temperature: Vec<i16>,
    pub apparent_temperature: Vec<i16>,
    pub precipitation_probability: Vec<u16>,
    pub precipitation: Vec<u16>,
    pub snowfall: Vec<u16>,
    pub uv_index: Vec<u16>,
    pub wind_speed: Vec<u16>,
    pub wind_gusts: Vec<u16>,
    pub relative_humidity: Vec<u16>,
    pub cloud_cover: Vec<Option<u16>>,
    pub weather_code: Option<Vec<u8>>,
    /// 1 for a daylight hour, 0 at night; may be shorter (older caches).
    pub is_day: Vec<u16>,
}

/// Daily Open-Meteo data in columns, one entry per day, rounded as the
/// dashboard keeps it (see [`HourlyColumns`]).
#[derive(Debug, Clone)]
pub struct DailyColumns {
    /// IANA name of the forecast location's time zone.
    pub timezone: String,
    /// Each day, as chrono's `num_days_from_ce`.
    pub time: Vec<i32>,
    /// Sunrise as naive local date-time of the location (seconds from
    /// 1970-01-01T00:00).
    pub sunrise: Vec<i64>,
    /// Sunset, as `sunrise`.
    pub sunset: Vec<i64>,
    pub temperature_max: Vec<i16>,
    pub temperature_min: Vec<i16>,
    pub precipitation_sum: Vec<u16>,
    pub precipitation_probability_max: Vec<u16>,
    pub snowfall_sum: Vec<u16>,
    pub cloud_cover_mean: Vec<Option<u16>>,
    pub weather_code: Option<Vec<u8>>,
}

/// The instant chrono reads from `text` in the form `%Y-%m-%dT%H:%M`
/// (`NaiveDateTime::parse_from_str`), taken as UTC, in seconds since the
/// epoch; `None` when the text does not parse.
pub uninterp spec fn chrono_minute_datetime(text: Seq<char>) -> Option<i64>;

/// The calendar date chrono reads from `text` (`NaiveDate::from_str`, ISO
/// 8601 `%Y-%m-%d`), counted as `Datelike::num_days_from_ce`; `None` when
/// the text does not parse.
pub uninterp spec fn chrono_iso_date_days(text: Seq<char>) -> Option<i32>;

/// `NaiveDateTime::parse_from_str(text, "%Y-%m-%dT%H:%M")` as seconds of
/// the UTC instant (`and_utc().timestamp()`). The contract only names the
/// result.
#[verifier::external_body]
fn parse_minute_datetime(text: &str) -> (r: Option<i64>)
    ensures
        r == chrono_minute_datetime(text@),
{
    chrono::NaiveDateTime::parse_from_str(text, "%Y-%m-%dT%H:%M").ok().map(|n| n.and_utc().timestamp())
}

/// `NaiveDate::from_str(text)` counted as `num_days_from_ce`. The contract
/// only names the result.
#[verifier::external_body]
fn parse_iso_date(text: &str) -> (r: Option<i32>)
    ensures
        r == chrono_iso_date_days(text@),
{
    text.parse::<chrono::NaiveDate>().ok().map(|d| chrono::Datelike::num_days_from_ce(&d))
}

/// Reads a column of `%Y-%m-%dT%H:%M` date-times (Open-Meteo's hourly times
/// in UTC, and its local sunrise and sunset times) as seconds: all of them,
/// or `None` when any does not parse.
pub fn parse_minute_datetimes(raw: &Vec<String>) -> (r: Option<Vec<i64>>)
    ensures
        r is Some <==> forall|i: int| 0 <= i < raw@.len() ==> (#[trigger] chrono_minute_datetime(raw@[i]@)) is Some,
        r matches Some(v) ==> v@.len() == raw@.len()
            && forall|i: int| 0 <= i < raw@.len() ==> chrono_minute_datetime(#[trigger] raw@[i]@) == Some(v@[i]),
{
    let mut out: Vec<i64> = Vec::new();
    let mut i: usize = 0;
    while i < raw.len()
        invariant
            i <= raw@.len(),
            out@.len() == i,
            forall|j: int| 0 <= j < i ==> chrono_minute_datetime(#[trigger] raw@[j]@) == Some(out@[j]),
        decreases raw.len() - i,
    {
        match parse_minute_datetime(raw[i].as_str()) {
            Some(t) => out.push(t),
            None => {
                assert(chrono_minute_datetime(raw@[i as int]@) is None);
                return None;
            },
        }
        i = i + 1;
    }
    Some(out)
}

/// Reads a column of ISO dates as day numbers (`num_days_from_ce`): all of
/// them, or `None` when any does not parse.
pub fn parse_iso_dates(raw: &Vec<String>) -> (r: Option<Vec<i32>>)
    ensures
        r is Some <==> forall|i: int| 0 <= i < raw@.len() ==> (#[trigger] chrono_iso_date_days(raw@[i]@)) is Some,
        r matches Some(v) ==> v@.len() == raw@.len()
            && forall|i: int| 0 <= i < raw@.len() ==> chrono_iso_date_days(#[trigger] raw@[i]@) == Some(v@[i]),
{
    let mut out: Vec<i32> = Vec::new();
    let mut i: usize = 0;
    while i < raw.len()
        invariant
            i <= raw@.len(),
            out@.len() == i,
            forall|j: int| 0 <= j < i ==> chrono_iso_date_days(#[trigger] raw@[j]@) == Some(out@[j]),
        decreases raw.len() - i,
    {
        match parse_iso_date(raw[i].as_str()) {
            Some(d) => out.push(d),
            None => {
                assert(chrono_iso_date_days(raw@[i as int]@) is None);
                return None;
            },
        }
        i = i + 1;
    }
    Some(out)
}

} // verus!
