use chrono::{Datelike, NaiveDate, NaiveDateTime, TimeZone, Utc};
use pi_inky_weather_epd::configs::settings::{Colour, Colours, DateFormat, Providers, RenderOptions, TemperatureUnit, WindSpeedUnit};
use pi_inky_weather_epd::dashboard::chart::ElementVisibility;
use pi_inky_weather_epd::dashboard::context::{find_forecast_window, pick_today_or_tomorrow_max, ContextBuilder, DebugDetails};
use pi_inky_weather_epd::domain::models::{Astronomical, DailyForecast, HourlyForecast, Precipitation, Wind};
use pi_inky_weather_epd::errors::DashboardError;
use pi_inky_weather_epd::weather::icons::IconContext;
use pi_inky_weather_epd::weather::utils::MoonPhaseIconName;

fn colour(v: &str) -> Colour {
    Colour::try_new(v, |_: &str| false).unwrap()
}

fn test_colours() -> Colours {
    Colours {
        background_colour: colour("white"),
        text_colour: colour("black"),
        x_axis_colour: colour("black"),
        y_left_axis_colour: colour("red"),
        y_right_axis_colour: colour("blue"),
        actual_temp_colour: colour("red"),
        feels_like_colour: colour("green"),
        rain_colour: colour("blue"),
        snow_colour: colour("#aaaaaa"),
    }
}

fn test_icon_context(use_gust: bool, unit: WindSpeedUnit) -> IconContext {
    IconContext {
        svg_icons_directory: "static/fill-svg-static".to_string(),
        render_options: RenderOptions {
            temp_unit: TemperatureUnit::C,
            wind_speed_unit: unit,
            date_format: DateFormat::try_new("%A, %d %B").unwrap(),
            use_moon_phase_instead_of_clear_night: false,
            x_axis_always_at_min: false,
            use_gust_instead_of_wind: use_gust,
            prefer_weather_codes: false,
        },
        moon_phase: MoonPhaseIconName::New,
    }
}

fn builder_at(tz: &str, now: i64) -> ContextBuilder {
    ContextBuilder::new(&test_colours(), test_icon_context(false, WindSpeedUnit::KmH), tz, now, None)
}

fn placeholder_builder() -> ContextBuilder {
    builder_at("Australia/Melbourne", Utc.with_ymd_and_hms(2025, 1, 1, 0, 0, 0).unwrap().timestamp())
}

fn days_from_ce(y: i32, m: u32, d: u32) -> i32 {
    NaiveDate::from_ymd_opt(y, m, d).unwrap().num_days_from_ce()
}

fn rounded(t: f32) -> i16 {
    t.round() as i16
}

fn naive_secs(text: &str) -> i64 {
    NaiveDateTime::parse_from_str(text, "%Y-%m-%d %H:%M:%S").unwrap().and_utc().timestamp()
}

fn daily(date: i32, max: f32, min: f32) -> DailyForecast {
    DailyForecast {
        date: Some(date),
        temp_max: Some(rounded(max)),
        temp_min: Some(rounded(min)),
        precipitation: None,
        astronomical: None,
        cloud_cover: None,
        weather_code: None,
    }
}

#[test]
fn today_greater_than_tomorrow_picks_today() {
    assert_eq!(pick_today_or_tomorrow_max(Some(10), Some(5)), Some((10, false)));
}

#[test]
fn tomorrow_greater_than_today_picks_tomorrow() {
    assert_eq!(pick_today_or_tomorrow_max(Some(5), Some(10)), Some((10, true)));
}

#[test]
fn tie_favors_tomorrow() {
    assert_eq!(pick_today_or_tomorrow_max(Some(7), Some(7)), Some((7, true)));
}

#[test]
fn only_today_has_data() {
    assert_eq!(pick_today_or_tomorrow_max(Some(3), None::<u16>), Some((3, false)));
}

#[test]
fn only_tomorrow_has_data() {
    assert_eq!(pick_today_or_tomorrow_max(None::<u16>, Some(3)), Some((3, true)));
}

#[test]
fn neither_has_data() {
    assert_eq!(pick_today_or_tomorrow_max(None::<u16>, None::<u16>), None);
}

#[test]
fn all_seven_days_are_populated() {
    // Oct 26, 2025, 9:00 AM Melbourne (UTC+11) = Oct 25, 2025, 22:00 UTC.
    let now = Utc.with_ymd_and_hms(2025, 10, 25, 22, 0, 0).unwrap().timestamp();
    let start = NaiveDate::from_ymd_opt(2025, 10, 26).unwrap();
    let data: Vec<DailyForecast> = (0..7)
        .map(|i| {
            let date = start + chrono::Days::new(i as u64);
            let sun = naive_secs(&format!("{} 06:30:00", date.format("%Y-%m-%d")));
            DailyForecast {
                date: Some(date.num_days_from_ce()),
                temp_max: Some(rounded(20.0 + i as f32)),
                temp_min: Some(rounded(10.0 + i as f32)),
                precipitation: None,
                astronomical: Some(Astronomical { sunrise_time: Some(sun), sunset_time: Some(sun) }),
                cloud_cover: None,
                weather_code: None,
            }
        })
        .collect();
    let mut builder = builder_at("Australia/Melbourne", now);
    builder.with_daily_forecast_data(data, now);
    let context = &builder.context;
    assert_eq!(context.day2_name, "Mon");
    assert_eq!(context.day2_mintemp, "11");
    assert_eq!(context.day2_maxtemp, "21");
    assert_eq!(context.day3_name, "Tue");
    assert_eq!(context.day3_mintemp, "12");
    assert_eq!(context.day3_maxtemp, "22");
    assert_eq!(context.day4_name, "Wed");
    assert_eq!(context.day4_mintemp, "13");
    assert_eq!(context.day4_maxtemp, "23");
    assert_eq!(context.day5_name, "Thu");
    assert_eq!(context.day5_mintemp, "14");
    assert_eq!(context.day5_maxtemp, "24");
    assert_eq!(context.day6_name, "Fri");
    assert_eq!(context.day6_mintemp, "15");
    assert_eq!(context.day6_maxtemp, "25");
    assert_eq!(context.day7_name, "Sat");
    assert_eq!(context.day7_mintemp, "16");
    assert_eq!(context.day7_maxtemp, "26");
    assert_ne!(context.day7_name, "NA");
    assert_eq!(context.sunrise_time, "06:30");
    assert_eq!(context.diagnostic_visibility, ElementVisibility::Hidden.as_str());
}

#[test]
fn single_validation_error_displays() {
    let mut builder = placeholder_builder();
    builder.with_validation_error(DashboardError::IncompleteData { details: "Only 5 days available".to_string() });
    let context = builder.context;
    assert_eq!(context.diagnostic_message, "Incomplete Data");
    assert_eq!(context.diagnostic_visibility, ElementVisibility::Visible.as_str());
    assert!(context.diagnostic_icons_svg.contains("code-yellow.svg"));
}

#[test]
fn single_api_warning_displays() {
    let mut builder = placeholder_builder();
    builder.with_warning(DashboardError::NoInternet { details: "Using cached data".to_string() });
    let context = builder.context;
    assert_eq!(context.diagnostic_message, "API unreachable -> Stale Data");
    assert_eq!(context.diagnostic_visibility, ElementVisibility::Visible.as_str());
    assert!(context.diagnostic_icons_svg.contains("code-orange.svg"));
}

#[test]
fn high_priority_api_error_overrides_low_priority_incomplete_data() {
    let mut builder = placeholder_builder();
    builder.with_validation_error(DashboardError::IncompleteData { details: "Only 5 days available".to_string() });
    builder.with_warning(DashboardError::ApiError { details: "Server returned error 500".to_string() });
    let context = builder.context;
    assert_eq!(context.diagnostic_message, "API error -> Stale Data");
    assert!(context.diagnostic_icons_svg.contains("code-red.svg"));
    assert_eq!(context.diagnostic_visibility, ElementVisibility::Visible.as_str());
}

#[test]
fn medium_priority_overrides_low_priority() {
    let mut builder = placeholder_builder();
    builder.with_validation_error(DashboardError::IncompleteData { details: "Only 5 days available".to_string() });
    builder.with_warning(DashboardError::NoInternet { details: "Using cached data".to_string() });
    let context = builder.context;
    assert_eq!(context.diagnostic_message, "API unreachable -> Stale Data");
    assert!(context.diagnostic_icons_svg.contains("code-orange.svg"));
}

#[test]
fn order_doesnt_matter_highest_priority_wins() {
    let mut builder1 = placeholder_builder();
    let mut builder2 = placeholder_builder();
    builder1.with_validation_error(DashboardError::IncompleteData { details: "Issue 1".to_string() });
    builder1.with_warning(DashboardError::ApiError { details: "Issue 2".to_string() });
    builder2.with_warning(DashboardError::ApiError { details: "Issue 2".to_string() });
    builder2.with_validation_error(DashboardError::IncompleteData { details: "Issue 1".to_string() });
    assert_eq!(builder1.context.diagnostic_message, builder2.context.diagnostic_message);
    assert_eq!(builder1.context.diagnostic_icons_svg, builder2.context.diagnostic_icons_svg);
    assert!(builder1.context.diagnostic_icons_svg.contains("code-red.svg"));
}

#[test]
fn multiple_errors_same_priority_shows_first() {
    let mut builder = placeholder_builder();
    builder.with_validation_error(DashboardError::IncompleteData { details: "Issue 1".to_string() });
    builder.with_validation_error(DashboardError::IncompleteData { details: "Issue 2".to_string() });
    let context = builder.context;
    assert_eq!(context.diagnostic_message, "Incomplete Data");
    assert!(context.diagnostic_icons_svg.contains("code-yellow.svg"));
}

#[test]
fn realistic_scenario_api_stale_and_incomplete_data() {
    let now = Utc.with_ymd_and_hms(2025, 10, 15, 10, 0, 0).unwrap().timestamp();
    let mut builder = builder_at("Australia/Melbourne", now);
    builder.with_warning(DashboardError::NoInternet { details: "Could not reach API server".to_string() });
    builder.with_daily_forecast_data(vec![], now);
    let context = builder.context;
    assert_eq!(context.diagnostic_message, "API unreachable -> Stale Data");
    assert!(context.diagnostic_icons_svg.contains("code-orange.svg"));
}

#[test]
fn no_errors_hides_warning_display() {
    let builder = placeholder_builder();
    assert_eq!(builder.context.diagnostic_visibility, ElementVisibility::Hidden.as_str());
}

#[test]
fn cascading_icons_svg_generated_for_multiple_errors() {
    let mut builder = placeholder_builder();
    builder.with_warning(DashboardError::NoInternet { details: "Network issue".to_string() });
    builder.with_validation_error(DashboardError::IncompleteData { details: "Missing days".to_string() });
    builder.with_warning(DashboardError::ApiError { details: "Server error".to_string() });
    let context = builder.context;
    assert_eq!(context.diagnostic_message, "API error -> Stale Data");
    assert!(context.diagnostic_icons_svg.contains("code-red.svg"));
    assert!(context.diagnostic_icons_svg.contains("code-orange.svg"));
    assert!(context.diagnostic_icons_svg.contains("code-yellow.svg"));
    assert_eq!(context.diagnostic_icons_svg.matches("<image").count(), 3);
}

#[test]
fn cascading_icons_are_sorted_by_priority() {
    let mut builder = placeholder_builder();
    builder.with_validation_error(DashboardError::IncompleteData { details: "Issue 1".to_string() });
    builder.with_warning(DashboardError::NoInternet { details: "Issue 2".to_string() });
    builder.with_warning(DashboardError::ApiError { details: "Issue 3".to_string() });
    let svg = &builder.context.diagnostic_icons_svg;
    let red_pos = svg.find("code-red.svg").unwrap();
    let orange_pos = svg.find("code-orange.svg").unwrap();
    let yellow_pos = svg.find("code-yellow.svg").unwrap();
    assert!(yellow_pos < orange_pos);
    assert!(orange_pos < red_pos);
}

#[test]
fn single_error_shows_one_icon() {
    let mut builder = placeholder_builder();
    builder.with_validation_error(DashboardError::IncompleteData { details: "Only issue".to_string() });
    let context = builder.context;
    assert_eq!(context.diagnostic_icons_svg.matches("<image").count(), 1);
    assert!(context.diagnostic_icons_svg.contains("code-yellow.svg"));
}

#[test]
fn cascading_icons_exact_markup() {
    let mut builder = placeholder_builder();
    builder.with_validation_error(DashboardError::IncompleteData { details: "a".to_string() });
    builder.with_warning(DashboardError::ApiError { details: "b".to_string() });
    assert_eq!(
        builder.context.diagnostic_icons_svg,
        "<image x=\"58\" y=\"-13\" width=\"74\" height=\"74\" href=\"static/fill-svg-static/code-yellow.svg\"/>\n        <image x=\"63\" y=\"-10\" width=\"74\" height=\"74\" href=\"static/fill-svg-static/code-red.svg\"/>"
    );
}

#[test]
fn with_daily_forecast_data_new_york_est() {
    // Dec 17, 2025 at 10:00 AM EST.
    let now = Utc.with_ymd_and_hms(2025, 12, 17, 15, 0, 0).unwrap().timestamp();
    let mut today = daily(days_from_ce(2025, 12, 17), 9.9, -2.8);
    today.precipitation = Some(Precipitation::new(Some(10), None, Some(0)));
    today.astronomical = Some(Astronomical {
        sunrise_time: Some(naive_secs("2025-12-17 07:19:00")),
        sunset_time: Some(naive_secs("2025-12-17 16:33:00")),
    });
    let mut d18 = daily(days_from_ce(2025, 12, 18), 10.3, -1.2);
    d18.precipitation = Some(Precipitation::new(Some(30), None, Some(1)));
    let mut d19 = daily(days_from_ce(2025, 12, 19), 11.5, 1.9);
    d19.precipitation = Some(Precipitation::new(Some(50), None, Some(2)));
    let data = vec![
        today,
        d18,
        d19,
        daily(days_from_ce(2025, 12, 20), 2.2, -1.1),
        daily(days_from_ce(2025, 12, 21), 7.2, 1.7),
        daily(days_from_ce(2025, 12, 22), 5.0, -1.5),
        daily(days_from_ce(2025, 12, 23), 1.3, -3.0),
    ];
    let mut builder = builder_at("America/New_York", now);
    builder.with_daily_forecast_data(data, now);
    let context = builder.context;
    assert_eq!(context.day2_name, "Thu");
    assert_eq!(context.day3_name, "Fri");
    assert_eq!(context.day4_name, "Sat");
    assert_eq!(context.day5_name, "Sun");
    assert_eq!(context.day6_name, "Mon");
    assert_eq!(context.day7_name, "Tue");
    assert_eq!(context.sunrise_time, "07:19");
    assert_eq!(context.sunset_time, "16:33");
    assert_eq!(context.day2_maxtemp, "10");
    assert_eq!(context.day2_mintemp, "-1");
    assert_eq!(context.day3_maxtemp, "12");
    assert_eq!(context.day3_mintemp, "2");
    assert_eq!(context.day4_maxtemp, "2");
    assert_eq!(context.day4_mintemp, "-1");
    assert_eq!(context.day5_maxtemp, "7");
    assert_eq!(context.day5_mintemp, "2");
    assert_eq!(context.day6_maxtemp, "5");
    assert_eq!(context.day6_mintemp, "-2");
    assert_eq!(context.day7_maxtemp, "1");
    assert_eq!(context.day7_mintemp, "-3");
}

#[test]
fn noon_utc_prevents_date_shift_in_est() {
    // Dec 17, 2025 at 2:00 AM EST.
    let now = Utc.with_ymd_and_hms(2025, 12, 17, 7, 0, 0).unwrap().timestamp();
    let data: Vec<DailyForecast> = [(17, 10.0, -3.0), (18, 11.0, -2.0), (19, 12.0, -1.0), (20, 13.0, 0.0), (21, 14.0, 1.0), (22, 15.0, 2.0), (23, 16.0, 3.0)]
        .into_iter()
        .map(|(day, max, min)| daily(days_from_ce(2025, 12, day), max, min))
        .collect();
    let mut builder = builder_at("America/New_York", now);
    builder.with_daily_forecast_data(data, now);
    let context = builder.context;
    assert_eq!(context.day2_name, "Thu");
    assert_eq!(context.day2_maxtemp, "11");
    assert_eq!(context.day3_maxtemp, "12");
    assert_eq!(context.day4_maxtemp, "13");
    assert_eq!(context.day5_maxtemp, "14");
    assert_eq!(context.day6_maxtemp, "15");
    assert_eq!(context.day7_maxtemp, "16");
}

#[test]
fn skips_past_dates() {
    // Dec 19, 2025 at 10:00 AM EST.
    let now = Utc.with_ymd_and_hms(2025, 12, 19, 15, 0, 0).unwrap().timestamp();
    let data: Vec<DailyForecast> = [(17, 10.0, -3.0), (18, 11.0, -2.0), (19, 12.0, -1.0), (20, 13.0, 0.0), (21, 14.0, 1.0), (22, 15.0, 2.0), (23, 16.0, 3.0), (24, 17.0, 4.0), (25, 18.0, 5.0)]
        .into_iter()
        .map(|(day, max, min)| daily(days_from_ce(2025, 12, day), max, min))
        .collect();
    let mut builder = builder_at("America/New_York", now);
    builder.with_daily_forecast_data(data, now);
    let context = builder.context;
    assert_eq!(context.day2_name, "Sat");
    assert_eq!(context.day2_maxtemp, "13");
    assert_eq!(context.day3_maxtemp, "14");
    assert_eq!(context.day4_maxtemp, "15");
    assert_eq!(context.day5_maxtemp, "16");
    assert_eq!(context.day6_maxtemp, "17");
    assert_eq!(context.day7_maxtemp, "18");
}

#[test]
fn missing_days_are_counted_in_one_diagnostic() {
    let now = Utc.with_ymd_and_hms(2025, 12, 17, 15, 0, 0).unwrap().timestamp();
    let data = vec![daily(days_from_ce(2025, 12, 18), 3.0, 1.0)];
    let mut builder = builder_at("America/New_York", now);
    builder.with_daily_forecast_data(data, now);
    let context = builder.context;
    assert_eq!(context.day2_maxtemp, "3");
    assert_eq!(context.day3_maxtemp, "N/A");
    assert_eq!(context.day3_icon, "static/fill-svg-static/not-available.svg");
    assert_eq!(context.diagnostic_message, "Incomplete Data");
    assert_eq!(context.diagnostic_icons_svg.matches("<image").count(), 1);
}

#[test]
fn later_duplicate_daily_entries_win() {
    let now = Utc.with_ymd_and_hms(2025, 12, 17, 15, 0, 0).unwrap().timestamp();
    let data = vec![daily(days_from_ce(2025, 12, 18), 3.0, 1.0), daily(days_from_ce(2025, 12, 18), 9.0, 4.0)];
    let mut builder = builder_at("America/New_York", now);
    builder.with_daily_forecast_data(data, now);
    assert_eq!(builder.context.day2_maxtemp, "9");
    assert_eq!(builder.context.day2_mintemp, "4");
}

#[test]
fn initial_context_shows_settings_and_placeholders() {
    let builder = placeholder_builder();
    let c = &builder.context;
    assert_eq!(c.background_colour, "white");
    assert_eq!(c.snow_colour, "#aaaaaa");
    assert_eq!(c.temp_unit, "C");
    assert_eq!(c.current_wind_speed_unit, "km/h");
    assert_eq!(c.max_uv_index, "N/A");
    assert_eq!(c.max_uv_index_font_style, "normal");
    assert_eq!(c.graph_height, "300");
    assert_eq!(c.graph_width, "600");
    assert_eq!(c.sunrise_icon, "static/fill-svg-static/sunrise.svg");
    assert_eq!(c.day4_icon, "static/fill-svg-static/not-available.svg");
    assert_eq!(c.debug_info_visibility, "hidden");
    assert_eq!(c.diagnostic_message, "N/A");
}

#[test]
fn debug_details_are_shown_when_given() {
    let now = Utc.with_ymd_and_hms(2025, 1, 1, 0, 0, 0).unwrap().timestamp();
    let debug = DebugDetails { version: "1.2.3".to_string(), provider: Providers::OpenMeteo, location: "-37.8, 145.0".to_string() };
    let builder = ContextBuilder::new(&test_colours(), test_icon_context(false, WindSpeedUnit::KmH), "Australia/Melbourne", now, Some(debug));
    let c = &builder.context;
    assert_eq!(c.debug_info_visibility, "visible");
    assert_eq!(c.debug_version, "v1.2.3");
    assert_eq!(c.debug_provider, "OpenMeteo");
    assert_eq!(c.debug_location, "-37.8, 145.0");
    assert_eq!(c.debug_timezone, "+1100");
}

fn hour(time: i64, wind: (u16, u16), uv: u16, humidity: u16, amount: u16) -> HourlyForecast {
    HourlyForecast {
        time,
        temperature: 21,
        apparent_temperature: -3,
        wind: Wind::new(wind.0, wind.1),
        precipitation: Precipitation::new(Some(40), None, Some(amount)),
        uv_index: uv,
        relative_humidity: humidity,
        is_night: false,
        cloud_cover: Some(10),
        weather_code: None,
    }
}

#[test]
fn forecast_window_starts_at_the_current_hour() {
    let now = Utc.with_ymd_and_hms(2024, 1, 1, 10, 30, 0).unwrap().timestamp();
    let h10 = Utc.with_ymd_and_hms(2024, 1, 1, 10, 0, 0).unwrap().timestamp();
    let data = vec![hour(h10 - 3600, (1, 1), 0, 0, 0), hour(h10, (1, 1), 0, 0, 0)];
    assert_eq!(find_forecast_window(&data, now), Some((h10, h10 + 86400)));
    let tomorrow_only = vec![hour(h10 + 86400, (1, 1), 0, 0, 0)];
    assert_eq!(find_forecast_window(&tomorrow_only, now), None);
    assert_eq!(find_forecast_window(&vec![], now), None);
}

#[test]
fn hourly_data_fills_current_hour_and_table() {
    // 2024-01-01 10:00 UTC is 21:00 in Melbourne, so the local day ends three hours in.
    let h10 = Utc.with_ymd_and_hms(2024, 1, 1, 10, 0, 0).unwrap().timestamp();
    let data: Vec<HourlyForecast> = (0..24)
        .map(|i| {
            let t = h10 + 3600 * i;
            if i < 3 { hour(t, (20, 30), 4, 50, 1) } else { hour(t, (10, 40), 2, 90, 2) }
        })
        .collect();
    let mut builder = builder_at("Australia/Melbourne", h10);
    assert!(builder.with_hourly_forecast_data(data, h10));
    let c = &builder.context;
    assert_eq!(c.current_hour_actual_temp, "21");
    assert_eq!(c.current_hour_feels_like, "-3");
    assert_eq!(c.current_hour_wind_speed, "20");
    assert_eq!(c.current_hour_uv_index, "4");
    assert_eq!(c.current_hour_relative_humidity, "50");
    assert_eq!(c.current_hour_relative_humidity_icon, "static/fill-svg-static/humidity-plus.svg");
    assert_eq!(c.current_hour_rain_amount, "1");
    assert_eq!(c.current_day_date, "Monday, 01 January");
    assert_eq!(c.max_gust_speed, "20");
    assert_eq!(c.max_gust_speed_font_style, "normal");
    assert_eq!(c.max_uv_index, "4");
    assert_eq!(c.max_relative_humidity, "90");
    assert_eq!(c.max_relative_humidity_font_style, "italic");
    assert_eq!(c.total_rain_today, "45");
}

#[test]
fn no_hourly_window_is_incomplete_data() {
    let h10 = Utc.with_ymd_and_hms(2024, 1, 1, 10, 0, 0).unwrap().timestamp();
    let mut builder = builder_at("Australia/Melbourne", h10);
    assert!(builder.with_hourly_forecast_data(vec![], h10));
    assert_eq!(builder.context.diagnostic_message, "Incomplete Data");
    assert_eq!(builder.context.current_hour_actual_temp, "N/A");
}

#[test]
fn diagnostic_display_is_the_same_for_every_order() {
    let errors = [
        DashboardError::IncompleteData { details: "a".to_string() },
        DashboardError::NoInternet { details: "b".to_string() },
        DashboardError::ApiError { details: "c".to_string() },
        DashboardError::IncompleteData { details: "d".to_string() },
    ];
    let orders = [[0, 1, 2, 3], [3, 2, 1, 0], [2, 0, 3, 1], [1, 3, 0, 2], [0, 2, 1, 3], [3, 1, 2, 0]];
    let mut shown: Vec<(String, String)> = Vec::new();
    for order in orders {
        let mut builder = placeholder_builder();
        for i in order {
            builder.with_warning(errors[i].clone());
        }
        let c = builder.context;
        assert_eq!(c.diagnostic_icons_svg.matches("<image").count(), 4);
        shown.push((c.diagnostic_message, c.diagnostic_icons_svg));
    }
    assert!(shown.iter().all(|s| *s == shown[0]));
    assert_eq!(shown[0].0, "API error -> Stale Data");
}
