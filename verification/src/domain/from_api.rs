//! Mapping API data into the domain forecasts.
use vstd::prelude::*;
use crate::apis::bom;
use crate::apis::open_meteo::{DailyColumns, HourlyColumns};
use crate::configs::settings::TemperatureUnit;
use crate::domain::models::{parsed_weather_code, Astronomical, DailyForecast, HourlyForecast, Precipitation, Wind};
use crate::domain::weather_code::WmoWeatherCode;
use crate::time::{chrono_local_days, chrono_local_naive, chrono_relocalized, in_chrono_range, local_days_from_ce, local_naive_secs, relocalize};

verus! {

/// A whole-degree Celsius temperature in `unit`, as the dashboard shows it:
/// unchanged in Celsius; in Fahrenheit 9c/5 + 32 rounded to the nearest
/// degree (a whole c never lies halfway), saturated to the `i16` range.
pub open spec fn display_degrees(c: i16, unit: TemperatureUnit) -> i16 {
    match unit {
        TemperatureUnit::C => c,
        TemperatureUnit::F => {
            let f = (9 * c + 162) / 5;
            if f > 32767 { 32767i16 } else if f < -32768 { -32768i16 } else { f as i16 }
        },
    }
}

/// Converts a whole-degree Celsius temperature into the display unit.
pub fn celsius_to_unit(c: i16, unit: TemperatureUnit) -> (r: i16)
    ensures
        r == display_degrees(c, unit),
{
    match unit {
        TemperatureUnit::C => c,
        TemperatureUnit::F => {
            let n: i32 = 9 * (c as i32) + 162;
            let shifted: u32 = (n + 300000) as u32;
            let f: i32 = (shifted / 5) as i32 - 60000;
            assert(f == n / 5) by (nonlinear_arith)
                requires
                    shifted as int == n + 300000,
                    f == shifted as int / 5 - 60000,
                    n >= -300000,
            {
            }
            if f > 32767 {
                32767
            } else if f < -32768 {
                -32768
            } else {
                f as i16
            }
        },
    }
}

/// The domain forecast of a BOM hourly entry.
pub open spec fn bom_hourly(b: bom::HourlyForecast, unit: TemperatureUnit) -> HourlyForecast {
    HourlyForecast {
        time: b.time,
        temperature: display_degrees(b.temp, unit),
        apparent_temperature: display_degrees(b.temp_feels_like, unit),
        wind: Wind { speed_kmh: b.wind.speed_kilometre, gust_speed_kmh: b.wind.gust_speed_kilometre },
        precipitation: Precipitation {
            chance: b.rain.chance,
            amount_min: b.rain.amount.min,
            amount_max: b.rain.amount.max,
            snowfall_amount: None,
        },
        uv_index: match b.uv {
            Some(u) => u.0,
            None => 0,
        },
        relative_humidity: b.relative_humidity.0,
        is_night: b.is_night,
        cloud_cover: None,
        weather_code: None,
    }
}

/// The domain forecast of a BOM daily entry: the date is the local
/// calendar day of the entry's instant in the display time zone `tz`, and
/// sunrise and sunset become local wall-clock times there.
pub open spec fn bom_daily(b: bom::DailyEntry, unit: TemperatureUnit, tz: Seq<char>) -> DailyForecast {
    DailyForecast {
        date: match b.date {
            Some(t) => chrono_local_days(t, tz),
            None => None,
        },
        temp_max: match b.temp_max {
            Some(t) => Some(display_degrees(t, unit)),
            None => None,
        },
        temp_min: match b.temp_min {
            Some(t) => Some(display_degrees(t, unit)),
            None => None,
        },
        precipitation: match b.rain {
            Some(r) => Some(Precipitation { chance: r.chance, amount_min: r.amount.min, amount_max: r.amount.max, snowfall_amount: None }),
            None => None,
        },
        astronomical: match b.astronomical {
            Some(a) => Some(Astronomical {
                sunrise_time: match a.sunrise_time {
                    Some(t) => chrono_local_naive(t, tz),
                    None => None,
                },
                sunset_time: match a.sunset_time {
                    Some(t) => chrono_local_naive(t, tz),
                    None => None,
                },
            }),
            None => None,
        },
        cloud_cover: None,
        weather_code: None,
    }
}

impl HourlyForecast {
    /// Maps a BOM hourly entry into the domain model in the display unit.
    pub fn from_bom(b: &bom::HourlyForecast, unit: TemperatureUnit) -> (r: HourlyForecast)
        ensures
            r == bom_hourly(*b, unit),
    {
        HourlyForecast {
            time: b.time,
            temperature: celsius_to_unit(b.temp, unit),
            apparent_temperature: celsius_to_unit(b.temp_feels_like, unit),
            wind: Wind::new(b.wind.speed_kilometre, b.wind.gust_speed_kilometre),
            precipitation: Precipitation::new(b.rain.chance, b.rain.amount.min, b.rain.amount.max),
            uv_index: match b.uv {
                Some(u) => u.0,
                None => 0,
            },
            relative_humidity: b.relative_humidity.0,
            is_night: b.is_night,
            cloud_cover: None,
            weather_code: None,
        }
    }
}

/// Whether an optional instant lies within the instants chrono handles.
pub open spec fn in_range_or_absent(t: Option<i64>) -> bool {
    match t {
        Some(t) => in_chrono_range(t),
        None => true,
    }
}

/// Whether the instants of a BOM daily entry lie within the instants
/// chrono can show in a local time zone (reading them outside panics).
pub open spec fn bom_daily_times_in_range(b: bom::DailyEntry) -> bool {
    &&& in_range_or_absent(b.date)
    &&& match b.astronomical {
        Some(a) => in_range_or_absent(a.sunrise_time) && in_range_or_absent(a.sunset_time),
        None => true,
    }
}

/// A local date-time of an instant in the display zone, when it exists.
fn local_time_of(t: Option<i64>, tz: &str) -> (r: Option<i64>)
    requires
        in_range_or_absent(t),
    ensures
        r == match t {
            Some(t) => chrono_local_naive(t, tz@),
            None => None,
        },
{
    match t {
        Some(t) => local_naive_secs(t, tz),
        None => None,
    }
}

/// A temperature in the display unit, when there is one.
fn degrees_of(t: Option<i16>, unit: TemperatureUnit) -> (r: Option<i16>)
    ensures
        r == match t {
            Some(t) => Some(display_degrees(t, unit)),
            None => None,
        },
{
    match t {
        Some(t) => Some(celsius_to_unit(t, unit)),
        None => None,
    }
}

impl DailyForecast {
    /// Maps a BOM daily entry into the domain model, in the display unit
    /// and the display time zone `tz`.
    pub fn from_bom(b: &bom::DailyEntry, unit: TemperatureUnit, tz: &str) -> (r: DailyForecast)
        requires
            bom_daily_times_in_range(*b),
        ensures
            r == bom_daily(*b, unit, tz@),
    {
        DailyForecast {
            date: match b.date {
                Some(t) => local_days_from_ce(t, tz),
                None => None,
            },
            temp_max: degrees_of(b.temp_max, unit),
            temp_min: degrees_of(b.temp_min, unit),
            precipitation: match b.rain {
                Some(r) => Some(Precipitation::new(r.chance, r.amount.min, r.amount.max)),
                None => None,
            },
            astronomical: match b.astronomical {
                Some(a) => Some(Astronomical {
                    sunrise_time: local_time_of(a.sunrise_time, tz),
                    sunset_time: local_time_of(a.sunset_time, tz),
                }),
                None => None,
            },
            cloud_cover: None,
            weather_code: None,
        }
    }
}

/// The weather code of entry `i`, when the codes cover it.
pub open spec fn code_at(codes: Option<Vec<u8>>, i: int) -> Option<Result<WmoWeatherCode, u8>> {
    match codes {
        Some(c) => if 0 <= i < c@.len() { Some(parsed_weather_code(c@[i])) } else { None },
        None => None,
    }
}

/// Reads the weather code of entry `i`.
fn weather_code_at(codes: &Option<Vec<u8>>, i: usize) -> (r: Option<Result<WmoWeatherCode, u8>>)
    ensures
        r == code_at(*codes, i as int),
{
    match codes {
        Some(c) => {
            if i < c.len() {
                Some(WmoWeatherCode::try_from_code(c[i]))
            } else {
                None
            }
        },
        None => None,
    }
}

/// Whether every column of the hourly data covers each hour (the daylight
/// flags and weather codes may be shorter).
pub open spec fn hourly_columns_cover(c: HourlyColumns) -> bool {
    let n = c.time@.len();
    &&& c.temperature@.len() >= n
    &&& c.apparent_temperature@.len() >= n
    &&& c.precipitation_probability@.len() >= n
    &&& c.precipitation@.len() >= n
    &&& c.snowfall@.len() >= n
    &&& c.uv_index@.len() >= n
    &&& c.wind_speed@.len() >= n
    &&& c.wind_gusts@.len() >= n
    &&& c.relative_humidity@.len() >= n
    &&& c.cloud_cover@.len() >= n
}

/// The domain forecast of hour `i`: a night hour only when its daylight
/// flag is 0 (a missing flag means day), the precipitation as chance,
/// upper bound and snowfall.
pub open spec fn hourly_entry(c: HourlyColumns, i: int) -> HourlyForecast {
    HourlyForecast {
        time: c.time@[i],
        temperature: c.temperature@[i],
        apparent_temperature: c.apparent_temperature@[i],
        wind: Wind { speed_kmh: c.wind_speed@[i], gust_speed_kmh: c.wind_gusts@[i] },
        precipitation: Precipitation {
            chance: Some(c.precipitation_probability@[i]),
            amount_min: None,
            amount_max: Some(c.precipitation@[i]),
            snowfall_amount: Some(c.snowfall@[i]),
        },
        uv_index: c.uv_index@[i],
        relative_humidity: c.relative_humidity@[i],
        is_night: i < c.is_day@.len() && c.is_day@[i] == 0,
        cloud_cover: c.cloud_cover@[i],
        weather_code: code_at(c.weather_code, i),
    }
}

impl HourlyColumns {
    /// Maps the hourly columns into one domain forecast per hour.
    pub fn into_domain(&self) -> (r: Vec<HourlyForecast>)
        requires
            hourly_columns_cover(*self),
        ensures
            r@.len() == self.time@.len(),
            forall|i: int| 0 <= i < r@.len() ==> #[trigger] r@[i] == hourly_entry(*self, i),
    {
        let n = self.time.len();
        let mut out: Vec<HourlyForecast> = Vec::new();
        let mut i: usize = 0;
        while i < n
            invariant
                n == self.time@.len(),
                hourly_columns_cover(*self),
                i <= n,
                out@.len() == i,
                forall|j: int| 0 <= j < i ==> #[trigger] out@[j] == hourly_entry(*self, j),
            decreases n - i,
        {
            let is_night = i < self.is_day.len() && self.is_day[i] == 0;
            let entry = HourlyForecast {
                time: self.time[i],
                temperature: self.temperature[i],
                apparent_temperature: self.apparent_temperature[i],
                wind: Wind::new(self.wind_speed[i], self.wind_gusts[i]),
                precipitation: Precipitation::new_with_snowfall(
                    Some(self.precipitation_probability[i]),
                    None,
                    Some(self.precipitation[i]),
                    Some(self.snowfall[i]),
                ),
                uv_index: self.uv_index[i],
                relative_humidity: self.relative_humidity[i],
                is_night,
                cloud_cover: self.cloud_cover[i],
                weather_code: weather_code_at(&self.weather_code, i),
            };
            out.push(entry);
            i = i + 1;
        }
        out
    }
}

/// Whether every column the daily mapping reads by position covers each day.
pub open spec fn daily_columns_cover(c: DailyColumns) -> bool {
    let n = c.time@.len();
    &&& c.temperature_max@.len() >= n
    &&& c.temperature_min@.len() >= n
    &&& c.precipitation_sum@.len() >= n
    &&& c.precipitation_probability_max@.len() >= n
    &&& c.snowfall_sum@.len() >= n
}

/// Whether the sunrise and sunset date-times lie within the instants chrono
/// can move between time zones (converting them outside panics).
pub open spec fn daily_times_in_range(c: DailyColumns) -> bool {
    &&& forall|i: int| 0 <= i < c.sunrise@.len() ==> in_chrono_range(#[trigger] c.sunrise@[i])
    &&& forall|i: int| 0 <= i < c.sunset@.len() ==> in_chrono_range(#[trigger] c.sunset@[i])
}

/// A location-local time shown in the display zone, or unchanged when it
/// cannot be converted.
pub open spec fn display_time(naive: i64, location_tz: Seq<char>, display_tz: Seq<char>) -> i64 {
    match chrono_relocalized(naive, location_tz, display_tz) {
        Some(t) => t,
        None => naive,
    }
}

/// Entry `i` of a column of times, converted to the display zone.
pub open spec fn display_time_at(times: Seq<i64>, i: int, location_tz: Seq<char>, display_tz: Seq<char>) -> Option<i64> {
    if 0 <= i < times.len() { Some(display_time(times[i], location_tz, display_tz)) } else { None }
}

/// The domain forecast of day `i`: precipitation only when there is some
/// amount, chance or snowfall; astronomical data when sunrise or sunset is
/// known, converted from the location's zone to the display zone `tz`.
pub open spec fn daily_entry(c: DailyColumns, i: int, tz: Seq<char>) -> DailyForecast {
    let amount = c.precipitation_sum@[i];
    let chance = c.precipitation_probability_max@[i];
    let snow = c.snowfall_sum@[i];
    let sunrise = display_time_at(c.sunrise@, i, c.timezone@, tz);
    let sunset = display_time_at(c.sunset@, i, c.timezone@, tz);
    DailyForecast {
        date: Some(c.time@[i]),
        temp_max: Some(c.temperature_max@[i]),
        temp_min: Some(c.temperature_min@[i]),
        precipitation: if amount > 0 || chance > 0 || snow > 0 {
            Some(Precipitation { chance: Some(chance), amount_min: None, amount_max: Some(amount), snowfall_amount: Some(snow) })
        } else {
            None
        },
        astronomical: if sunrise is Some || sunset is Some {
            Some(Astronomical { sunrise_time: sunrise, sunset_time: sunset })
        } else {
            None
        },
        cloud_cover: if i < c.cloud_cover_mean@.len() { c.cloud_cover_mean@[i] } else { None },
        weather_code: code_at(c.weather_code, i),
    }
}

/// Entry `i` of a column of location-local times, shown in the display zone.
fn display_time_of(times: &Vec<i64>, i: usize, location_tz: &str, display_tz: &str) -> (r: Option<i64>)
    requires
        forall|j: int| 0 <= j < times@.len() ==> in_chrono_range(#[trigger] times@[j]),
    ensures
        r == display_time_at(times@, i as int, location_tz@, display_tz@),
{
    if i < times.len() {
        match relocalize(times[i], location_tz, display_tz) {
            Some(t) => Some(t),
            None => Some(times[i]),
        }
    } else {
        None
    }
}

impl DailyColumns {
    /// Maps the daily columns into one domain forecast per day, showing
    /// sunrise and sunset in the display time zone `tz`.
    pub fn into_domain(&self, tz: &str) -> (r: Vec<DailyForecast>)
        requires
            daily_columns_cover(*self),
            daily_times_in_range(*self),
        ensures
            r@.len() == self.time@.len(),
            forall|i: int| 0 <= i < r@.len() ==> #[trigger] r@[i] == daily_entry(*self, i, tz@),
    {
        let n = self.time.len();
        let mut out: Vec<DailyForecast> = Vec::new();
        let mut i: usize = 0;
        while i < n
            invariant
                n == self.time@.len(),
                daily_columns_cover(*self),
                daily_times_in_range(*self),
                i <= n,
                out@.len() == i,
                forall|j: int| 0 <= j < i ==> #[trigger] out@[j] == daily_entry(*self, j, tz@),
            decreases n - i,
        {
            let amount = self.precipitation_sum[i];
            let chance = self.precipitation_probability_max[i];
            let snow = self.snowfall_sum[i];
            let precipitation = if amount > 0 || chance > 0 || snow > 0 {
                Some(Precipitation::new_with_snowfall(Some(chance), None, Some(amount), Some(snow)))
            } else {
                None
            };
            let sunrise = display_time_of(&self.sunrise, i, self.timezone.as_str(), tz);
            let sunset = display_time_of(&self.sunset, i, self.timezone.as_str(), tz);
            let astronomical = if sunrise.is_some() || sunset.is_some() {
                Some(Astronomical { sunrise_time: sunrise, sunset_time: sunset })
            } else {
                None
            };
            let cloud_cover = if i < self.cloud_cover_mean.len() { self.cloud_cover_mean[i] } else { None };
            let entry = DailyForecast {
                date: Some(self.time[i]),
                temp_max: Some(self.temperature_max[i]),
                temp_min: Some(self.temperature_min[i]),
                precipitation,
                astronomical,
                cloud_cover,
                weather_code: weather_code_at(&self.weather_code, i),
            };
            out.push(entry);
            i = i + 1;
        }
        out
    }
}

/// Celsius temperatures are shown as given; in Fahrenheit a temperature
/// shows the whole degree nearest to 9c/5 + 32 (within half a degree), as
/// long as that fits the display range.
pub proof fn lemma_fahrenheit_display(c: i16)
    ensures
        display_degrees(c, TemperatureUnit::C) == c,
        -18000 <= c <= 18000 ==> 9 * c + 160 - 2 <= 5 * display_degrees(c, TemperatureUnit::F) <= 9 * c + 160 + 2,
{
    let n = 9 * c + 162;
    vstd::arithmetic::div_mod::lemma_fundamental_div_mod(n, 5);
    vstd::arithmetic::div_mod::lemma_mod_bound(n, 5);
}

} // verus!
