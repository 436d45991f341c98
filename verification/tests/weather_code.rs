use pi_inky_weather_epd::domain::weather_code::WmoWeatherCode;

#[test]
fn test_wmo_code_conversion() {
    assert_eq!(WmoWeatherCode::from(0), WmoWeatherCode::ClearSky);
    assert_eq!(WmoWeatherCode::from(45), WmoWeatherCode::Fog);
    assert_eq!(WmoWeatherCode::from(71), WmoWeatherCode::SnowSlight);
    assert_eq!(WmoWeatherCode::from(95), WmoWeatherCode::Thunderstorm);
    assert_eq!(WmoWeatherCode::from(255), WmoWeatherCode::Unknown);
}

#[test]
fn test_icon_name_generation_day() {
    assert_eq!(WmoWeatherCode::ClearSky.icon_name(false), "clear-day.svg");
    assert_eq!(WmoWeatherCode::PartlyCloudy.icon_name(false), "partly-cloudy-day.svg");
    assert_eq!(WmoWeatherCode::Fog.icon_name(false), "fog-day.svg");
    assert_eq!(WmoWeatherCode::RainModerate.icon_name(false), "overcast-day-rain.svg");
    assert_eq!(WmoWeatherCode::SnowHeavy.icon_name(false), "extreme-day-snow.svg");
    assert_eq!(WmoWeatherCode::Thunderstorm.icon_name(false), "thunderstorms-day.svg");
    assert_eq!(WmoWeatherCode::ThunderstormHailSlight.icon_name(false), "thunderstorms-day-hail.svg");
    assert_eq!(
        WmoWeatherCode::ThunderstormHailHeavy.icon_name(false),
        "thunderstorms-day-extreme-hail.svg"
    );
}

#[test]
fn test_icon_name_generation_night() {
    assert_eq!(WmoWeatherCode::ClearSky.icon_name(true), "clear-night.svg");
    assert_eq!(WmoWeatherCode::Fog.icon_name(true), "fog-night.svg");
    assert_eq!(WmoWeatherCode::RainHeavy.icon_name(true), "extreme-night-rain.svg");
    assert_eq!(WmoWeatherCode::Thunderstorm.icon_name(true), "thunderstorms-night.svg");
    assert_eq!(WmoWeatherCode::ThunderstormHailSlight.icon_name(true), "thunderstorms-night-hail.svg");
    assert_eq!(
        WmoWeatherCode::ThunderstormHailHeavy.icon_name(true),
        "thunderstorms-night-extreme-hail.svg"
    );
}

#[test]
fn test_intensity_gradation() {
    assert!(WmoWeatherCode::DrizzleLight.icon_name(false).contains("partly-cloudy"));
    assert!(WmoWeatherCode::RainSlight.icon_name(false).contains("partly-cloudy"));
    assert!(WmoWeatherCode::SnowSlight.icon_name(false).contains("partly-cloudy"));
    assert!(WmoWeatherCode::DrizzleModerate.icon_name(false).contains("overcast"));
    assert!(WmoWeatherCode::RainModerate.icon_name(false).contains("overcast"));
    assert!(WmoWeatherCode::SnowModerate.icon_name(false).contains("overcast"));
    assert!(WmoWeatherCode::RainHeavy.icon_name(false).contains("extreme"));
    assert!(WmoWeatherCode::SnowHeavy.icon_name(false).contains("extreme"));
}

#[test]
fn test_display() {
    assert_eq!(WmoWeatherCode::Thunderstorm.description(), "Thunderstorm");
    assert_eq!(WmoWeatherCode::RainModerate.description(), "Moderate rain");
    assert_eq!(WmoWeatherCode::Fog.description(), "Fog");
}

#[test]
fn unknown_code_has_overcast_icon_and_is_kept_raw() {
    assert_eq!(WmoWeatherCode::Unknown.icon_name(false), "overcast-day.svg");
    assert_eq!(WmoWeatherCode::Unknown.description(), "Unknown weather");
    assert_eq!(WmoWeatherCode::try_from_code(42), Err(42));
    assert_eq!(WmoWeatherCode::try_from_code(61), Ok(WmoWeatherCode::RainSlight));
}
