use chrono::{Datelike, NaiveDate, NaiveDateTime, TimeZone, Utc};
use pi_inky_weather_epd::apis::bom;
use pi_inky_weather_epd::apis::open_meteo::{DailyColumns, HourlyColumns};
use pi_inky_weather_epd::configs::settings::TemperatureUnit;
use pi_inky_weather_epd::domain::from_api::celsius_to_unit;
use pi_inky_weather_epd::domain::models::{DailyForecast, HourlyForecast};
use pi_inky_weather_epd::domain::weather_code::WmoWeatherCode;

fn hourly_columns(n: usize) -> HourlyColumns {
    HourlyColumns {
        time: (0..n as i64).map(|i| 1760054400 + 3600 * i).collect(),
        temperature: (0..n).map(|i| 18 + i as i16).collect(),
        apparent_temperature: (0..n).map(|i| 15 + i as i16).collect(),
        precipitation_probability: (0..n).map(|i| 10 * (i as u16 + 1)).collect(),
        precipitation: vec![0; n],
        snowfall: vec![0; n],
        uv_index: vec![0; n],
        wind_speed: (0..n).map(|i| 15 + 3 * i as u16).collect(),
        wind_gusts: (0..n).map(|i| 25 + 5 * i as u16).collect(),
        relative_humidity: vec![65; n],
        cloud_cover: vec![Some(30); n],
        weather_code: None,
        is_day: vec![],
    }
}

fn naive_secs(text: &str) -> i64 {
    NaiveDateTime::parse_from_str(text, "%Y-%m-%dT%H:%M").unwrap().and_utc().timestamp()
}

#[test]
fn hourly_columns_map_index_by_index() {
    let domain: Vec<HourlyForecast> = hourly_columns(2).into_domain();
    assert_eq!(domain.len(), 2);
    assert_eq!(domain[0].temperature, 18);
    assert_eq!(domain[0].apparent_temperature, 15);
    assert_eq!(domain[0].precipitation.chance, Some(10));
    assert_eq!(domain[0].wind.speed_kmh, 15);
    assert_eq!(domain[1].temperature, 19);
    assert_eq!(domain[1].apparent_temperature, 16);
    assert_eq!(domain[1].precipitation.chance, Some(20));
    assert_eq!(domain[1].wind.speed_kmh, 18);
    assert_eq!(domain[1].wind.gust_speed_kmh, 30);
    assert_eq!(domain[1].precipitation.amount_min, None);
}

#[test]
fn hourly_daylight_flag_sets_night_per_hour() {
    let mut cols = hourly_columns(3);
    cols.is_day = vec![0, 0, 1];
    let domain = cols.into_domain();
    assert!(domain[0].is_night);
    assert!(domain[1].is_night);
    assert!(!domain[2].is_night);
}

#[test]
fn missing_daylight_flag_means_day() {
    let domain = hourly_columns(1).into_domain();
    assert_eq!(domain.len(), 1);
    assert!(!domain[0].is_night);
}

#[test]
fn weather_codes_are_read_where_present() {
    let mut cols = hourly_columns(3);
    cols.weather_code = Some(vec![61, 42]);
    let domain = cols.into_domain();
    assert_eq!(domain[0].weather_code, Some(Ok(WmoWeatherCode::RainSlight)));
    assert_eq!(domain[1].weather_code, Some(Err(42)));
    assert_eq!(domain[2].weather_code, None);
}

#[test]
fn daily_precipitation_only_when_something_falls() {
    let d = |day: u32| NaiveDate::from_ymd_opt(2025, 10, day).unwrap().num_days_from_ce();
    let cols = DailyColumns {
        timezone: "Australia/Melbourne".to_string(),
        time: vec![d(10), d(11)],
        sunrise: vec![naive_secs("2025-10-10T06:00")],
        sunset: vec![naive_secs("2025-10-10T18:00")],
        temperature_max: vec![25, 21],
        temperature_min: vec![12, 9],
        precipitation_sum: vec![3, 0],
        precipitation_probability_max: vec![60, 0],
        snowfall_sum: vec![0, 0],
        cloud_cover_mean: vec![Some(55)],
        weather_code: None,
    };
    let domain: Vec<DailyForecast> = cols.into_domain("Australia/Melbourne");
    assert_eq!(domain.len(), 2);
    assert_eq!(domain[0].date, Some(d(10)));
    assert_eq!(domain[0].temp_max, Some(25));
    let p = domain[0].precipitation.unwrap();
    assert_eq!((p.chance, p.amount_max, p.snowfall_amount), (Some(60), Some(3), Some(0)));
    assert!(domain[1].precipitation.is_none());
    let astro = domain[0].astronomical.unwrap();
    assert_eq!(astro.sunrise_time, Some(naive_secs("2025-10-10T06:00")));
    assert!(domain[1].astronomical.is_none());
    assert_eq!(domain[0].cloud_cover, Some(55));
    assert_eq!(domain[1].cloud_cover, None);
}

#[test]
fn daily_times_move_to_the_display_zone() {
    let d = NaiveDate::from_ymd_opt(2025, 12, 17).unwrap().num_days_from_ce();
    let cols = DailyColumns {
        timezone: "America/New_York".to_string(),
        time: vec![d],
        sunrise: vec![naive_secs("2025-12-17T07:19")],
        sunset: vec![],
        temperature_max: vec![10],
        temperature_min: vec![-1],
        precipitation_sum: vec![0],
        precipitation_probability_max: vec![0],
        snowfall_sum: vec![0],
        cloud_cover_mean: vec![],
        weather_code: None,
    };
    let domain = cols.into_domain("Europe/London");
    let astro = domain[0].astronomical.unwrap();
    assert_eq!(astro.sunrise_time, Some(naive_secs("2025-12-17T12:19")));
    assert_eq!(astro.sunset_time, None);
}

#[test]
fn fahrenheit_conversion_rounds_to_whole_degrees() {
    assert_eq!(celsius_to_unit(20, TemperatureUnit::C), 20);
    assert_eq!(celsius_to_unit(20, TemperatureUnit::F), 68);
    assert_eq!(celsius_to_unit(-19, TemperatureUnit::F), -2);
    assert_eq!(celsius_to_unit(-40, TemperatureUnit::F), -40);
    assert_eq!(celsius_to_unit(21, TemperatureUnit::F), 70);
    for c in -300i16..300 {
        let f = (c as f32 * 9.0 / 5.0 + 32.0).round() as i16;
        assert_eq!(celsius_to_unit(c, TemperatureUnit::F), f, "for {c}");
    }
    assert_eq!(celsius_to_unit(i16::MAX, TemperatureUnit::F), i16::MAX);
}

#[test]
fn bom_hourly_entry_maps_to_domain() {
    let entry = bom::HourlyForecast {
        rain: bom::Rain { amount: bom::RainAmount { min: Some(1), max: Some(3) }, chance: Some(40) },
        temp: 25,
        temp_feels_like: 27,
        wind: bom::Wind { speed_kilometre: 12, gust_speed_kilometre: 20 },
        relative_humidity: bom::RelativeHumidity(55),
        uv: None,
        time: 1760054400,
        is_night: true,
    };
    let h = HourlyForecast::from_bom(&entry, TemperatureUnit::F);
    assert_eq!(h.temperature, 77);
    assert_eq!(h.apparent_temperature, 81);
    assert_eq!(h.uv_index, 0);
    assert_eq!(h.relative_humidity, 55);
    assert_eq!(h.precipitation.amount_max, Some(3));
    assert!(h.is_night);
    assert_eq!(h.cloud_cover, None);
}

#[test]
fn bom_daily_entry_dates_are_local() {
    // 2025-12-17T02:00Z is still Dec 16 in New York.
    let instant = Utc.with_ymd_and_hms(2025, 12, 17, 2, 0, 0).unwrap().timestamp();
    let entry = bom::DailyEntry {
        rain: None,
        astronomical: Some(bom::Astronomical { sunrise_time: Some(instant), sunset_time: None }),
        date: Some(instant),
        temp_max: Some(30),
        temp_min: None,
    };
    let d = DailyForecast::from_bom(&entry, TemperatureUnit::C, "America/New_York");
    assert_eq!(d.date, Some(NaiveDate::from_ymd_opt(2025, 12, 16).unwrap().num_days_from_ce()));
    assert_eq!(d.temp_max, Some(30));
    assert_eq!(d.temp_min, None);
    assert_eq!(d.astronomical.unwrap().sunrise_time, Some(naive_secs("2025-12-16T21:00")));
}
