//! The error shape of the Bureau of Meteorology API, its forecast entries,
//! and the reading of its timestamps.
use vstd::prelude::*;

verus! {

/// An error response of the BOM API: a list of error details.
#[derive(Debug, Clone)]
pub struct BomError {
    pub errors: Vec<ErrorDetail>,
}

/// One error of a BOM error response.
#[derive(Debug, Clone)]
pub struct ErrorDetail {
    pub detail: String,
}

/// Relative humidity in percent.
#[derive(Debug, Clone, Copy, PartialEq, Eq, Structural)]
pub struct RelativeHumidity(pub u16);

/// UV index of an hour.
#[derive(Debug, Clone, Copy, PartialEq, Eq, Structural)]
pub struct HourlyUV(pub u16);

/// Wind speeds in km/h.
#[derive(Debug, Clone, Copy)]
pub struct Wind {
    pub speed_kilometre: u16,
    pub gust_speed_kilometre: u16,
}

/// Bounds of a rain amount in mm.
#[derive(Debug, Clone, Copy)]
pub struct RainAmount {
    pub min: Option<u16>,
    pub max: Option<u16>,
}

/// Rain amount and chance.
#[derive(Debug, Clone, Copy)]
pub struct Rain {
    pub amount: RainAmount,
    pub chance: Option<u16>,
}

/// Sunrise and sunset instants, in seconds since the epoch (UTC).
#[derive(Debug, Clone, Copy)]
pub struct Astronomical {
    pub sunrise_time: Option<i64>,
    pub sunset_time: Option<i64>,
}

/// A daily entry of the BOM API; temperatures in whole degrees Celsius.
#[derive(Debug, Clone, Copy)]
pub struct DailyEntry {
    pub rain: Option<Rain>,
    pub astronomical: Option<Astronomical>,
    /// The day, as an instant in seconds since the epoch (UTC).
    pub date: Option<i64>,
    pub temp_max: Option<i16>,
    pub temp_min: Option<i16>,
}

/// An hourly entry of the BOM API; temperatures in whole degrees Celsius.
#[derive(Debug, Clone, Copy)]
pub struct HourlyForecast {
    pub rain: Rain,
    pub temp: i16,
    pub temp_feels_like: i16,
    pub wind: Wind,
    pub relative_humidity: RelativeHumidity,
    pub uv: Option<HourlyUV>,
    /// Start of the hour, seconds since the epoch (UTC).
    pub time: i64,
    pub is_night: bool,
}

/// The instant chrono reads from the date-time `text` as a
/// `DateTime<Utc>` (`FromStr`, RFC 3339 with an offset), in seconds since
/// the epoch; `None` when the text does not parse.
pub uninterp spec fn chrono_utc_datetime(text: Seq<char>) -> Option<i64>;

/// `text.parse::<chrono::DateTime<chrono::Utc>>()` as seconds since the
/// epoch (`timestamp()`). The contract only names the result.
#[verifier::external_body]
fn parse_utc_datetime(text: &str) -> (r: Option<i64>)
    ensures
        r == chrono_utc_datetime(text@),
{
    text.parse::<chrono::DateTime<chrono::Utc>>().ok().map(|d| d.timestamp())
}

/// The instant of an optional timestamp text: absent stays absent, a text
/// that does not parse gives `None`.
pub open spec fn timestamp_of(text: Option<Seq<char>>) -> Option<Option<i64>> {
    match text {
        None => Some(None),
        Some(t) => match chrono_utc_datetime(t) {
            Some(secs) => Some(Some(secs)),
            None => None,
        },
    }
}

/// Reads BOM timestamps (each possibly absent) as seconds since the epoch:
/// all of them, or `None` when a present one does not parse.
pub fn parse_utc_datetimes(raw: &Vec<Option<String>>) -> (r: Option<Vec<Option<i64>>>)
    ensures
        r is Some <==> forall|i: int| 0 <= i < raw@.len() ==> (#[trigger] timestamp_of(text_of(raw@[i]))) is Some,
        r matches Some(v) ==> v@.len() == raw@.len()
            && forall|i: int| 0 <= i < raw@.len() ==> timestamp_of(text_of(#[trigger] raw@[i])) == Some(v@[i]),
{
    let mut out: Vec<Option<i64>> = Vec::new();
    let mut i: usize = 0;
    while i < raw.len()
        invariant
            i <= raw@.len(),
            out@.len() == i,
            forall|j: int| 0 <= j < i ==> timestamp_of(text_of(#[trigger] raw@[j])) == Some(out@[j]),
        decreases raw.len() - i,
    {
        match &raw[i] {
            None => out.push(None),
            Some(t) => match parse_utc_datetime(t.as_str()) {
                Some(secs) => out.push(Some(secs)),
                None => {
                    assert(timestamp_of(text_of(raw@[i as int])) is None);
                    return None;
                },
            },
        }
        i = i + 1;
    }
    Some(out)
}

/// The text of an optional string.
pub open spec fn text_of(s: Option<String>) -> Option<Seq<char>> {
    match s {
        Some(t) => Some(t@),
        None => None,
    }
}

} // verus!
