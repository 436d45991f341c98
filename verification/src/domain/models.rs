//! Domain models of the forecast, independent of any weather API.
//!
//! Temperatures and the sunrise/sunset wall-clock times are held by the
//! application around these models; the models hold what the dashboard's
//! decisions read.
use vstd::prelude::*;
use crate::configs::settings::WindSpeedUnit;
use crate::domain::weather_code::WmoWeatherCode;

verus! {

/// Wind speeds in km/h.
#[derive(Debug, Clone, Copy, PartialEq, Eq, Structural)]
pub struct Wind {
    pub speed_kmh: u16,
    pub gust_speed_kmh: u16,
}

/// `speed_kmh` converted to `unit`, rounded half away from zero
/// (1 km/h = 0.621371 mph = 0.539957 knots).
pub open spec fn converted_speed(speed_kmh: u16, unit: WindSpeedUnit) -> nat {
    match unit {
        WindSpeedUnit::KmH => speed_kmh as nat,
        WindSpeedUnit::Mph => ((speed_kmh as nat * 621371 + 500000) / 1000000) as nat,
        WindSpeedUnit::Knots => ((speed_kmh as nat * 539957 + 500000) / 1000000) as nat,
    }
}

impl Wind {
    pub fn new(speed_kmh: u16, gust_speed_kmh: u16) -> (r: Wind)
        ensures
            r.speed_kmh == speed_kmh,
            r.gust_speed_kmh == gust_speed_kmh,
    {
        Wind { speed_kmh, gust_speed_kmh }
    }

    /// The sustained or the gust speed.
    pub open spec fn spec_speed(self, use_gust: bool) -> u16 {
        if use_gust { self.gust_speed_kmh } else { self.speed_kmh }
    }

    /// The sustained speed, or the gust speed when `use_gust` is set.
    pub fn speed(&self, use_gust: bool) -> (r: u16)
        ensures
            r == self.spec_speed(use_gust),
    {
        if use_gust { self.gust_speed_kmh } else { self.speed_kmh }
    }

    /// Convert a wind speed from km/h to the given unit, rounding to the
    /// nearest whole number.
    pub fn convert_speed(speed_kmh: u16, unit: WindSpeedUnit) -> (r: u16)
        ensures
            r as nat == converted_speed(speed_kmh, unit),
    {
        match unit {
            WindSpeedUnit::KmH => speed_kmh,
            WindSpeedUnit::Mph => {
                let v: u64 = (speed_kmh as u64 * 621371 + 500000) / 1000000;
                assert(v <= 65535) by (nonlinear_arith)
                    requires v == (speed_kmh as u64 * 621371 + 500000) / 1000000, speed_kmh <= 65535;
                v as u16
            },
            WindSpeedUnit::Knots => {
                let v: u64 = (speed_kmh as u64 * 539957 + 500000) / 1000000;
                assert(v <= 65535) by (nonlinear_arith)
                    requires v == (speed_kmh as u64 * 539957 + 500000) / 1000000, speed_kmh <= 65535;
                v as u16
            },
        }
    }

    /// The wind speed in the configured unit.
    pub fn speed_in_unit(&self, use_gust: bool, unit: WindSpeedUnit) -> (r: u16)
        ensures
            r as nat == converted_speed(self.spec_speed(use_gust), unit),
    {
        let speed_kmh = self.speed(use_gust);
        Self::convert_speed(speed_kmh, unit)
    }
}

/// Precipitation: chance in percent, amount bounds in mm and snowfall in
/// tenths of a centimetre (×10, so light snowfall of 0.1–0.49 cm survives).
#[derive(Debug, Clone, Copy, PartialEq, Eq, Structural)]
pub struct Precipitation {
    pub chance: Option<u16>,
    pub amount_min: Option<u16>,
    pub amount_max: Option<u16>,
    pub snowfall_amount: Option<u16>,
}

impl Precipitation {
    pub fn new(chance: Option<u16>, amount_min: Option<u16>, amount_max: Option<u16>) -> (r: Precipitation)
        ensures
            r == (Precipitation { chance, amount_min, amount_max, snowfall_amount: None }),
    {
        Precipitation { chance, amount_min, amount_max, snowfall_amount: None }
    }

    pub fn new_with_snowfall(
        chance: Option<u16>,
        amount_min: Option<u16>,
        amount_max: Option<u16>,
        snowfall_amount: Option<u16>,
    ) -> (r: Precipitation)
        ensures
            r == (Precipitation { chance, amount_min, amount_max, snowfall_amount }),
    {
        Precipitation { chance, amount_min, amount_max, snowfall_amount }
    }

    /// Best estimate of the precipitation amount, in half-millimetres: the
    /// single bound when only one is given, twice the midpoint when both are,
    /// zero when neither is.
    pub open spec fn amount_halves(self) -> nat {
        match (self.amount_min, self.amount_max) {
            (None, Some(max)) => 2 * (max as nat),
            (Some(min), None) => 2 * (min as nat),
            (Some(min), Some(max)) => (min + max) as nat,
            (None, None) => 0,
        }
    }

    /// Snowfall in tenths of a centimetre (0 when absent).
    pub open spec fn snow_tenths(self) -> nat {
        match self.snowfall_amount {
            Some(s) => s as nat,
            None => 0,
        }
    }

    /// Whether there is any snowfall.
    pub open spec fn spec_has_snow(self) -> bool {
        self.snow_tenths() > 0
    }

    /// Snow is primary when its water equivalent (7 cm snow ≈ 10 mm water,
    /// i.e. snow cm × 1.43) exceeds 60% of the precipitation amount. In
    /// integers: snow_tenths/10 × 143/100 > amount_halves/2 × 6/10.
    pub open spec fn spec_is_primarily_snow(self) -> bool {
        self.snow_tenths() > 0 && self.snow_tenths() * 143 > self.amount_halves() * 300
    }

    /// Best estimate of the precipitation amount in half-millimetres.
    pub fn amount_in_halves(&self) -> (r: u32)
        ensures
            r as nat == self.amount_halves(),
    {
        match (self.amount_min, self.amount_max) {
            (None, Some(max)) => 2 * (max as u32),
            (Some(min), None) => 2 * (min as u32),
            (Some(min), Some(max)) => min as u32 + max as u32,
            (None, None) => 0,
        }
    }

    /// Check if this precipitation includes snowfall.
    pub fn has_snow(&self) -> (r: bool)
        ensures
            r == self.spec_has_snow(),
    {
        match self.snowfall_amount {
            Some(s) => s > 0,
            None => false,
        }
    }

    /// Determine if precipitation is primarily snow based on the water
    /// equivalent ratio (Open-Meteo's 7 cm snow ≈ 10 mm water). Uses the
    /// single bound directly when only one amount bound is present.
    pub fn is_primarily_snow(&self) -> (r: bool)
        ensures
            r == self.spec_is_primarily_snow(),
    {
        let snow: u64 = match self.snowfall_amount {
            Some(s) => s as u64,
            None => 0,
        };
        if snow == 0 {
            return false;
        }
        let halves: u64 = self.amount_in_halves() as u64;
        snow * 143 > halves * 300
    }
}

/// Sunrise and sunset as local wall-clock date-times (already in the
/// location's time zone), each given as the seconds from 1970-01-01T00:00
/// to that naive date-time.
#[derive(Debug, Clone, Copy)]
pub struct Astronomical {
    pub sunrise_time: Option<i64>,
    pub sunset_time: Option<i64>,
}

/// Precipitation is primarily snow only when there is snowfall, and it
/// always is when there is snowfall but no liquid amount.
pub proof fn lemma_primarily_snow_needs_snow(p: Precipitation)
    ensures
        p.spec_is_primarily_snow() ==> p.spec_has_snow(),
        p.spec_has_snow() && p.amount_halves() == 0 ==> p.spec_is_primarily_snow(),
{
}

/// Hourly forecast as the dashboard's decisions read it.
#[derive(Debug, Clone, Copy)]
pub struct HourlyForecast {
    /// Start of the hour, seconds since the Unix epoch (UTC).
    pub time: i64,
    /// Temperature in whole degrees, rounded as it is displayed.
    pub temperature: i16,
    /// Apparent ("feels like") temperature in whole degrees, rounded as it is displayed.
    pub apparent_temperature: i16,
    pub wind: Wind,
    pub precipitation: Precipitation,
    pub uv_index: u16,
    pub relative_humidity: u16,
    pub is_night: bool,
    pub cloud_cover: Option<u16>,
    /// WMO weather code: `Ok` if recognised, `Err(raw)` if not, `None` if absent.
    pub weather_code: Option<Result<WmoWeatherCode, u8>>,
}

/// Daily forecast as the dashboard's decisions read it.
#[derive(Debug, Clone, Copy)]
pub struct DailyForecast {
    /// Calendar date of the forecast day, counted as chrono's
    /// `num_days_from_ce` (January 1 of year 1 is day 1).
    pub date: Option<i32>,
    /// Highest temperature in whole degrees, rounded as it is displayed.
    pub temp_max: Option<i16>,
    /// Lowest temperature in whole degrees, rounded as it is displayed.
    pub temp_min: Option<i16>,
    pub precipitation: Option<Precipitation>,
    pub astronomical: Option<Astronomical>,
    pub cloud_cover: Option<u16>,
    /// WMO weather code: `Ok` if recognised, `Err(raw)` if not, `None` if absent.
    pub weather_code: Option<Result<WmoWeatherCode, u8>>,
}

/// A raw WMO code as the forecasts hold it: `Ok` when it is in the WMO
/// table, `Err(raw)` otherwise.
pub open spec fn parsed_weather_code(code: u8) -> Result<WmoWeatherCode, u8> {
    if WmoWeatherCode::spec_from(code) == WmoWeatherCode::Unknown {
        Err(code)
    } else {
        Ok(WmoWeatherCode::spec_from(code))
    }
}

impl WmoWeatherCode {
    /// Parses a raw code: `Ok` when it is in the WMO table, `Err(raw)` otherwise.
    pub fn try_from_code(code: u8) -> (r: Result<WmoWeatherCode, u8>)
        ensures
            r == parsed_weather_code(code),
    {
        let c = WmoWeatherCode::from(code);
        if c == WmoWeatherCode::Unknown {
            Err(code)
        } else {
            Ok(c)
        }
    }
}

/// Wind speeds are shown in km/h as given, and in mph and knots as the
/// nearest whole number to 0.621371 and 0.539957 times the speed; a faster
/// wind never shows a lower speed.
pub proof fn lemma_wind_speed_units(kmh: u16, faster: u16, unit: WindSpeedUnit)
    ensures
        unit == WindSpeedUnit::KmH ==> converted_speed(kmh, unit) == kmh,
        unit == WindSpeedUnit::Mph ==> kmh as int * 621371 - 500000 < converted_speed(kmh, unit) * 1000000
            <= kmh as int * 621371 + 500000,
        unit == WindSpeedUnit::Knots ==> kmh as int * 539957 - 500000 < converted_speed(kmh, unit) * 1000000
            <= kmh as int * 539957 + 500000,
        kmh <= faster ==> converted_speed(kmh, unit) <= converted_speed(faster, unit),
{
    let a = kmh as int * 621371 + 500000;
    let b = kmh as int * 539957 + 500000;
    vstd::arithmetic::div_mod::lemma_fundamental_div_mod(a, 1000000);
    vstd::arithmetic::div_mod::lemma_fundamental_div_mod(b, 1000000);
    vstd::arithmetic::div_mod::lemma_mod_bound(a, 1000000);
    vstd::arithmetic::div_mod::lemma_mod_bound(b, 1000000);
    if kmh <= faster {
        vstd::arithmetic::mul::lemma_mul_inequality(kmh as int, faster as int, 621371);
        vstd::arithmetic::mul::lemma_mul_inequality(kmh as int, faster as int, 539957);
        vstd::arithmetic::div_mod::lemma_div_is_ordered(a, faster as int * 621371 + 500000, 1000000);
        vstd::arithmetic::div_mod::lemma_div_is_ordered(b, faster as int * 539957 + 500000, 1000000);
    }
}

} // verus!
