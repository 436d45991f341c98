use pi_inky_weather_epd::configs::settings::{DateFormat, RenderOptions, TemperatureUnit, WindSpeedUnit};
use pi_inky_weather_epd::constants::not_available_icon_path;
use pi_inky_weather_epd::weather::icons::{HumidityIconName, Icon, IconContext, SunPositionIconName, UVIndexIcon};
use pi_inky_weather_epd::weather::utils::MoonPhaseIconName;

fn test_icon_context() -> IconContext {
    IconContext {
        svg_icons_directory: "static/fill-svg-static".to_string(),
        render_options: RenderOptions {
            temp_unit: TemperatureUnit::C,
            wind_speed_unit: WindSpeedUnit::KmH,
            date_format: DateFormat::try_new("%A, %d %B").unwrap(),
            use_moon_phase_instead_of_clear_night: false,
            x_axis_always_at_min: false,
            use_gust_instead_of_wind: false,
            prefer_weather_codes: false,
        },
        moon_phase: MoonPhaseIconName::New,
    }
}

#[test]
fn zero_is_none() {
    assert!(matches!(UVIndexIcon::from(0), UVIndexIcon::NoUv));
}

#[test]
fn one_is_low() {
    assert!(matches!(UVIndexIcon::from(1), UVIndexIcon::Low));
}

#[test]
fn two_is_still_low() {
    assert!(matches!(UVIndexIcon::from(2), UVIndexIcon::Low));
}

#[test]
fn three_is_moderate() {
    assert!(matches!(UVIndexIcon::from(3), UVIndexIcon::Moderate));
}

#[test]
fn five_is_still_moderate() {
    assert!(matches!(UVIndexIcon::from(5), UVIndexIcon::Moderate));
}

#[test]
fn six_is_high() {
    assert!(matches!(UVIndexIcon::from(6), UVIndexIcon::High));
}

#[test]
fn seven_is_still_high() {
    assert!(matches!(UVIndexIcon::from(7), UVIndexIcon::High));
}

#[test]
fn eight_is_very_high() {
    assert!(matches!(UVIndexIcon::from(8), UVIndexIcon::VeryHigh));
}

#[test]
fn ten_is_still_very_high() {
    assert!(matches!(UVIndexIcon::from(10), UVIndexIcon::VeryHigh));
}

#[test]
fn eleven_is_extreme() {
    assert!(matches!(UVIndexIcon::from(11), UVIndexIcon::Extreme));
}

#[test]
fn large_value_is_still_extreme() {
    assert!(matches!(UVIndexIcon::from(u16::MAX), UVIndexIcon::Extreme));
}

#[test]
fn uv_index_none_colour_falls_back_to_background() {
    assert_eq!(UVIndexIcon::NoUv.to_colour("dark-blue"), "dark-blue");
}

#[test]
fn uv_index_colours_by_variant() {
    assert_eq!(UVIndexIcon::Low.to_colour("bg"), "green");
    assert_eq!(UVIndexIcon::Moderate.to_colour("bg"), "yellow");
    assert_eq!(UVIndexIcon::High.to_colour("bg"), "orange");
    assert_eq!(UVIndexIcon::VeryHigh.to_colour("bg"), "red");
    assert_eq!(UVIndexIcon::Extreme.to_colour("bg"), "purple");
}

#[test]
fn forty_is_plain_humidity() {
    assert!(matches!(HumidityIconName::from(40), HumidityIconName::Humidity));
}

#[test]
fn forty_one_is_humidity_plus() {
    assert!(matches!(HumidityIconName::from(41), HumidityIconName::HumidityPlus));
}

#[test]
fn seventy_is_still_humidity_plus() {
    assert!(matches!(HumidityIconName::from(70), HumidityIconName::HumidityPlus));
}

#[test]
fn seventy_one_is_humidity_plus_plus() {
    assert!(matches!(HumidityIconName::from(71), HumidityIconName::HumidityPlusPlus));
}

#[test]
fn icon_path_joins_svg_directory_with_icon_name() {
    let ctx = test_icon_context();
    let path = SunPositionIconName::Sunrise.icon_path(&ctx);
    assert!(path.ends_with("sunrise.svg"));
    assert!(path.starts_with(&ctx.svg_icons_directory));
    assert_eq!(path, "static/fill-svg-static/sunrise.svg");
}

#[test]
fn not_available_icon_path_joins_svg_directory() {
    let ctx = test_icon_context();
    let path = not_available_icon_path(&ctx.svg_icons_directory);
    assert!(path.ends_with("not-available.svg"));
    assert!(path.starts_with(&ctx.svg_icons_directory));
    assert_eq!(not_available_icon_path("icons/"), "icons/not-available.svg");
    assert_eq!(not_available_icon_path(""), "not-available.svg");
}

#[test]
fn icon_names_of_readings() {
    let ctx = test_icon_context();
    assert_eq!(UVIndexIcon::from(4).icon_name(&ctx), "uv-index-moderate.svg");
    assert_eq!(HumidityIconName::from(90).icon_path(&ctx), "static/fill-svg-static/humidity-plus-plus.svg");
}
