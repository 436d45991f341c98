use pi_inky_weather_epd::configs::settings::{DateFormat, RenderOptions, TemperatureUnit, WindSpeedUnit};
use chrono::Datelike;
use pi_inky_weather_epd::domain::models::{DailyForecast, HourlyForecast, Precipitation, Wind};
use pi_inky_weather_epd::weather::icons::{Icon, IconContext};
use pi_inky_weather_epd::weather::utils::MoonPhaseIconName;

fn test_icon_context(use_moon_phase: bool) -> IconContext {
    IconContext {
        svg_icons_directory: "static/fill-svg-static".to_string(),
        render_options: RenderOptions {
            temp_unit: TemperatureUnit::C,
            wind_speed_unit: WindSpeedUnit::KmH,
            date_format: DateFormat::try_new("%A, %d %B").unwrap(),
            use_moon_phase_instead_of_clear_night: use_moon_phase,
            x_axis_always_at_min: false,
            use_gust_instead_of_wind: false,
            prefer_weather_codes: false,
        },
        moon_phase: MoonPhaseIconName::WaxingGibbous,
    }
}

#[test]
fn overrides_low_precipitation_chance() {
    let ctx = test_icon_context(false);
    // High cloud cover (80%) should produce overcast icon even with low precip chance (10%)
    let forecast = HourlyForecast {
        time: 0,
        temperature: 18,
        apparent_temperature: 16,
        wind: Wind::new(10, 15),
        precipitation: Precipitation::new(Some(10), Some(0), Some(0)),
        uv_index: 3,
        relative_humidity: 70,
        is_night: false,
        cloud_cover: Some(80),
        weather_code: None,
    };

    assert_eq!(forecast.icon_name(&ctx), "extreme-day.svg");
}

#[test]
fn boundary_25_percent() {
    let ctx = test_icon_context(false);
    // 25% cloud cover is upper limit of Clear range
    let forecast_25 = HourlyForecast {
        time: 0,
        temperature: 20,
        apparent_temperature: 19,
        wind: Wind::new(8, 12),
        precipitation: Precipitation::new(Some(50), Some(0), Some(0)),
        uv_index: 5,
        relative_humidity: 50,
        is_night: false,
        cloud_cover: Some(25),
        weather_code: None,
    };
    let forecast_26 = HourlyForecast {
        cloud_cover: Some(26),
        ..forecast_25.clone()
    };

    assert_eq!(forecast_25.icon_name(&ctx), "clear-day.svg");
    assert_eq!(forecast_26.icon_name(&ctx), "partly-cloudy-day.svg");
}

#[test]
fn boundary_50_and_51_percent() {
    let ctx = test_icon_context(false);
    let forecast_50 = HourlyForecast {
        time: 0,
        temperature: 18,
        apparent_temperature: 17,
        wind: Wind::new(10, 15),
        precipitation: Precipitation::new(Some(30), Some(0), Some(0)),
        uv_index: 3,
        relative_humidity: 65,
        is_night: false,
        cloud_cover: Some(50),
        weather_code: None,
    };
    let forecast_51 = HourlyForecast {
        cloud_cover: Some(51),
        ..forecast_50.clone()
    };

    assert_eq!(forecast_50.icon_name(&ctx), "partly-cloudy-day.svg");
    assert_eq!(forecast_51.icon_name(&ctx), "overcast-day.svg");
}

#[test]
fn boundary_75_and_76_percent() {
    let ctx = test_icon_context(false);
    let forecast_75 = HourlyForecast {
        time: 0,
        temperature: 16,
        apparent_temperature: 15,
        wind: Wind::new(12, 20),
        precipitation: Precipitation::new(Some(60), Some(0), Some(0)),
        uv_index: 2,
        relative_humidity: 80,
        is_night: false,
        cloud_cover: Some(75),
        weather_code: None,
    };
    let forecast_76 = HourlyForecast {
        cloud_cover: Some(76),
        ..forecast_75.clone()
    };

    assert_eq!(forecast_75.icon_name(&ctx), "overcast-day.svg");
    assert_eq!(forecast_76.icon_name(&ctx), "extreme-day.svg");
}

#[test]
fn null_cloud_cover_falls_back_to_precipitation() {
    let ctx = test_icon_context(false);
    let forecast = HourlyForecast {
        time: 0,
        temperature: 20,
        apparent_temperature: 19,
        wind: Wind::new(10, 15),
        precipitation: Precipitation::new(Some(40), Some(0), Some(0)),
        uv_index: 4,
        relative_humidity: 60,
        is_night: false,
        cloud_cover: None,
        weather_code: None,
    };

    assert_eq!(forecast.icon_name(&ctx), "partly-cloudy-day.svg");
}


#[test]
fn drizzle_requires_partly_cloudy() {
    let ctx = test_icon_context(false);
    // Clear skies (20% cloud) + drizzle should be bumped to PartlyCloudy
    let forecast = HourlyForecast {
        time: 0,
        temperature: 18,
        apparent_temperature: 17,
        wind: Wind::new(8, 12),
        precipitation: Precipitation::new(Some(20), Some(0), Some(1)), // 24mm/day = Drizzle
        uv_index: 4,
        relative_humidity: 65,
        is_night: false,
        cloud_cover: Some(15),
        weather_code: None,
    };

    assert_eq!(forecast.icon_name(&ctx), "partly-cloudy-day-drizzle.svg");
}

#[test]
fn rain_requires_overcast() {
    let ctx = test_icon_context(false);
    // Clear skies (20% cloud) + heavy rain should be bumped to Overcast
    let forecast = HourlyForecast {
        time: 0,
        temperature: 16,
        apparent_temperature: 15,
        wind: Wind::new(15, 25),
        precipitation: Precipitation::new(Some(25), Some(10), Some(20)), // 360mm/day = Rain
        uv_index: 2,
        relative_humidity: 85,
        is_night: false,
        cloud_cover: Some(20),
        weather_code: None,
    };

    assert_eq!(forecast.icon_name(&ctx), "overcast-day-rain.svg");
}

#[test]
fn partly_cloudy_rain_becomes_overcast() {
    let ctx = test_icon_context(false);
    // PartlyCloudy (40% cloud) + heavy rain should be bumped to Overcast
    let forecast = HourlyForecast {
        time: 0,
        temperature: 16,
        apparent_temperature: 14,
        wind: Wind::new(18, 30),
        precipitation: Precipitation::new(Some(50), Some(8), Some(15)), // 276mm/day = Rain
        uv_index: 1,
        relative_humidity: 90,
        is_night: false,
        cloud_cover: Some(40),
        weather_code: None,
    };

    assert_eq!(forecast.icon_name(&ctx), "overcast-day-rain.svg");
}

#[test]
fn fallback_with_precipitation_override() {
    let ctx = test_icon_context(false);
    // Low precip chance + drizzle amount; median of 0-5mm = 2.5mm which
    // is in the None range (0-2.0), so no override is needed.
    let forecast = DailyForecast {
        date: Some(chrono::Local::now().date_naive().num_days_from_ce()),
        temp_max: Some(25),
        temp_min: Some(15),
        precipitation: Some(Precipitation::new(Some(15), Some(0), Some(5))),
        astronomical: None,
        cloud_cover: None,
        weather_code: None,
    };

    assert_eq!(forecast.icon_name(&ctx), "clear-day.svg");
}


#[test]
fn partly_cloudy_with_drizzle_is_valid() {
    let ctx = test_icon_context(false);
    let forecast = HourlyForecast {
        time: 0,
        temperature: 18,
        apparent_temperature: 16,
        wind: Wind::new(12, 20),
        precipitation: Precipitation::new(Some(40), Some(0), Some(1)), // 24mm/day -> Drizzle
        uv_index: 3,
        relative_humidity: 70,
        is_night: false,
        cloud_cover: None,
        weather_code: None,
    };

    assert_eq!(forecast.icon_name(&ctx), "partly-cloudy-day-drizzle.svg");
}

#[test]
fn overcast_with_rain_is_valid() {
    let ctx = test_icon_context(false);
    let forecast = HourlyForecast {
        time: 0,
        temperature: 16,
        apparent_temperature: 14,
        wind: Wind::new(15, 25),
        precipitation: Precipitation::new(Some(60), Some(5), Some(15)), // 240mm/day -> Rain
        uv_index: 2,
        relative_humidity: 85,
        is_night: false,
        cloud_cover: None,
        weather_code: None,
    };

    assert_eq!(forecast.icon_name(&ctx), "overcast-day-rain.svg");
}

#[test]
fn extreme_with_drizzle_is_valid() {
    let ctx = test_icon_context(false);
    let forecast = HourlyForecast {
        time: 0,
        temperature: 12,
        apparent_temperature: 10,
        wind: Wind::new(20, 35),
        precipitation: Precipitation::new(Some(85), Some(0), Some(1)), // 12mm/day -> Drizzle
        uv_index: 1,
        relative_humidity: 90,
        is_night: true,
        cloud_cover: None,
        weather_code: None,
    };

    assert_eq!(forecast.icon_name(&ctx), "extreme-night-drizzle.svg");
}

#[test]
fn zero_chance_zero_amount_produces_clear() {
    let ctx = test_icon_context(false);
    let forecast = DailyForecast {
        date: Some(chrono::Local::now().date_naive().num_days_from_ce()),
        temp_max: Some(28),
        temp_min: Some(18),
        precipitation: Some(Precipitation::new(Some(0), Some(0), Some(0))),
        astronomical: None,
        cloud_cover: None,
        weather_code: None,
    };

    assert_eq!(forecast.icon_name(&ctx), "clear-day.svg");
}

#[test]
fn boundary_25_percent_is_still_clear() {
    let ctx = test_icon_context(false);
    let forecast = HourlyForecast {
        time: 0,
        temperature: 20,
        apparent_temperature: 19,
        wind: Wind::new(8, 12),
        precipitation: Precipitation::new(Some(25), Some(0), Some(0)),
        uv_index: 4,
        relative_humidity: 55,
        is_night: false,
        cloud_cover: Some(22),
        weather_code: None,
    };

    assert_eq!(forecast.icon_name(&ctx), "clear-day.svg");
}

#[test]
fn boundary_26_percent_allows_precipitation_suffix() {
    let ctx = test_icon_context(false);
    let forecast = HourlyForecast {
        time: 0,
        temperature: 20,
        apparent_temperature: 19,
        wind: Wind::new(8, 12),
        precipitation: Precipitation::new(Some(26), Some(0), Some(1)), // Drizzle (24mm/day)
        uv_index: 4,
        relative_humidity: 55,
        is_night: false,
        cloud_cover: None,
        weather_code: None,
    };

    assert_eq!(forecast.icon_name(&ctx), "partly-cloudy-day-drizzle.svg");
}


#[test]
fn high_snowfall_selects_snow_icon() {
    let ctx = test_icon_context(false);
    // 14.3cm snow × 1.43 ≈ 20.4mm water, total ~10mm = 204% (well above threshold)
    let forecast = HourlyForecast {
        time: 0,
        temperature: -2,
        apparent_temperature: -5,
        wind: Wind::new(10, 15),
        precipitation: Precipitation::new_with_snowfall(
            Some(80),
            Some(8),
            Some(12),
            Some(143),
        ),
        uv_index: 1,
        relative_humidity: 85,
        is_night: false,
        cloud_cover: Some(80),
        weather_code: None,
    };

    assert_eq!(forecast.icon_name(&ctx), "extreme-day-snow.svg");
}

#[test]
fn at_60_percent_threshold_is_snow() {
    let ctx = test_icon_context(false);
    // 4.3cm -> 6.14mm water > 6.0mm (60% of 10mm median) -> 61.4% snow
    let forecast = HourlyForecast {
        time: 0,
        temperature: 0,
        apparent_temperature: -2,
        wind: Wind::new(8, 12),
        precipitation: Precipitation::new_with_snowfall(
            Some(65),
            Some(9),
            Some(11),
            Some(43),
        ),
        uv_index: 2,
        relative_humidity: 80,
        is_night: true,
        cloud_cover: Some(70),
        weather_code: None,
    };

    assert_eq!(forecast.icon_name(&ctx), "overcast-night-snow.svg");
}

#[test]
fn below_snow_threshold_is_rain() {
    let ctx = test_icon_context(false);
    // 3.0cm × 10/7 ≈ 4.29mm water / 10mm total = 42.9% (below 60%)
    let forecast = HourlyForecast {
        time: 0,
        temperature: 2,
        apparent_temperature: 0,
        wind: Wind::new(12, 18),
        precipitation: Precipitation::new_with_snowfall(
            Some(70),
            Some(9),
            Some(11),
            Some(30),
        ),
        uv_index: 1,
        relative_humidity: 85,
        is_night: false,
        cloud_cover: Some(75),
        weather_code: None,
    };

    assert_eq!(forecast.icon_name(&ctx), "overcast-day-rain.svg");
}

#[test]
fn snow_override_requires_partly_cloudy() {
    let ctx = test_icon_context(false);
    // Snow with clear skies should bump to partly-cloudy
    let forecast = HourlyForecast {
        time: 0,
        temperature: -3,
        apparent_temperature: -6,
        wind: Wind::new(5, 8),
        precipitation: Precipitation::new_with_snowfall(
            Some(30),
            Some(0),
            Some(2),
            Some(15),
        ),
        uv_index: 2,
        relative_humidity: 70,
        is_night: false,
        cloud_cover: Some(20),
        weather_code: None,
    };

    assert_eq!(forecast.icon_name(&ctx), "partly-cloudy-day-snow.svg");
}

#[test]
fn low_snowfall_shows_clear_not_snow() {
    let ctx = test_icon_context(false);
    // 0.2cm × 10/7 ≈ 0.29mm water — below the 1.4mm threshold
    let forecast = HourlyForecast {
        time: 0,
        temperature: -1,
        apparent_temperature: -3,
        wind: Wind::new(3, 5),
        precipitation: Precipitation::new_with_snowfall(
            Some(15),
            Some(0),
            Some(0),
            Some(2),
        ),
        uv_index: 3,
        relative_humidity: 60,
        is_night: false,
        cloud_cover: Some(10),
        weather_code: None,
    };

    assert_eq!(forecast.icon_name(&ctx), "clear-day.svg");
}

#[test]
fn mixed_precipitation_favors_rain() {
    let ctx = test_icon_context(false);
    // 2.0cm × 10/7 ≈ 2.86mm water / 10mm total = 28.6% (below 60%)
    let forecast = HourlyForecast {
        time: 0,
        temperature: 3,
        apparent_temperature: 1,
        wind: Wind::new(10, 15),
        precipitation: Precipitation::new_with_snowfall(
            Some(60),
            Some(8),
            Some(12),
            Some(20),
        ),
        uv_index: 1,
        relative_humidity: 90,
        is_night: true,
        cloud_cover: Some(65),
        weather_code: None,
    };

    assert_eq!(forecast.icon_name(&ctx), "overcast-night-rain.svg");
}

#[test]
fn partly_cloudy_snow_at_night() {
    let ctx = test_icon_context(false);
    // 10cm × 1.43 ≈ 14.3mm water, total ~8mm = 179% (well above threshold)
    let forecast = HourlyForecast {
        time: 0,
        temperature: -5,
        apparent_temperature: -8,
        wind: Wind::new(6, 10),
        precipitation: Precipitation::new_with_snowfall(
            Some(45),
            Some(7),
            Some(9),
            Some(100),
        ),
        uv_index: 0,
        relative_humidity: 80,
        is_night: true,
        cloud_cover: Some(40),
        weather_code: None,
    };

    assert_eq!(forecast.icon_name(&ctx), "partly-cloudy-night-snow.svg");
}

#[test]
fn overcast_day_snow() {
    let ctx = test_icon_context(false);
    // 11.5cm × 1.43 ≈ 16.4mm water, total ~9mm = 183% (well above threshold)
    let forecast = HourlyForecast {
        time: 0,
        temperature: -4,
        apparent_temperature: -7,
        wind: Wind::new(12, 18),
        precipitation: Precipitation::new_with_snowfall(
            Some(60),
            Some(8),
            Some(10),
            Some(115),
        ),
        uv_index: 1,
        relative_humidity: 85,
        is_night: false,
        cloud_cover: Some(60),
        weather_code: None,
    };

    assert_eq!(forecast.icon_name(&ctx), "overcast-day-snow.svg");
}

#[test]
fn extreme_night_snow() {
    let ctx = test_icon_context(false);
    // 20cm × 1.43 ≈ 28.6mm water, total ~15mm = 190% (well above threshold)
    let forecast = HourlyForecast {
        time: 0,
        temperature: -10,
        apparent_temperature: -15,
        wind: Wind::new(20, 35),
        precipitation: Precipitation::new_with_snowfall(
            Some(90),
            Some(14),
            Some(16),
            Some(200),
        ),
        uv_index: 0,
        relative_humidity: 90,
        is_night: true,
        cloud_cover: Some(85),
        weather_code: None,
    };

    assert_eq!(forecast.icon_name(&ctx), "extreme-night-snow.svg");
}


fn clear_night_forecast() -> HourlyForecast {
    HourlyForecast {
        time: 0,
        temperature: 10,
        apparent_temperature: 9,
        wind: Wind::new(5, 8),
        precipitation: Precipitation::new(Some(0), Some(0), Some(0)),
        uv_index: 0,
        relative_humidity: 50,
        is_night: true,
        cloud_cover: Some(10),
        weather_code: None,
    }
}

#[test]
fn disabled_shows_clear_night() {
    let ctx = test_icon_context(false);

    assert_eq!(clear_night_forecast().icon_name(&ctx), "clear-night.svg");
}

#[test]
fn is_deterministic_for_a_fixed_date() {
    let ctx = test_icon_context(true);

    let icon = clear_night_forecast().icon_name(&ctx);

    assert!(
        icon.starts_with("moon-"),
        "expected a moon-phase icon, got {icon}"
    );
    assert_eq!(icon, clear_night_forecast().icon_name(&ctx));
}
