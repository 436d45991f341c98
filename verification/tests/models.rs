use pi_inky_weather_epd::configs::settings::WindSpeedUnit;
use pi_inky_weather_epd::domain::models::{Precipitation, Wind};

#[test]
fn kmh_no_conversion() {
    assert_eq!(Wind::convert_speed(20, WindSpeedUnit::KmH), 20);
}

#[test]
fn kmh_to_mph() {
    // 20 km/h * 0.621371 = 12.42742 ≈ 12 mph
    assert_eq!(Wind::convert_speed(20, WindSpeedUnit::Mph), 12);
}

#[test]
fn kmh_to_knots() {
    // 20 km/h * 0.539957 = 10.79914 ≈ 11 knots
    assert_eq!(Wind::convert_speed(20, WindSpeedUnit::Knots), 11);
}

#[test]
fn zero_speed() {
    assert_eq!(Wind::convert_speed(0, WindSpeedUnit::KmH), 0);
    assert_eq!(Wind::convert_speed(0, WindSpeedUnit::Mph), 0);
    assert_eq!(Wind::convert_speed(0, WindSpeedUnit::Knots), 0);
}

#[test]
fn high_values() {
    assert_eq!(Wind::convert_speed(100, WindSpeedUnit::KmH), 100);
    assert_eq!(Wind::convert_speed(100, WindSpeedUnit::Mph), 62); // 100 * 0.621371 ≈ 62
    assert_eq!(Wind::convert_speed(100, WindSpeedUnit::Knots), 54); // 100 * 0.539957 ≈ 54
}

#[test]
fn speed_in_unit_without_gust() {
    let wind = Wind::new(20, 30);
    assert_eq!(wind.speed_in_unit(false, WindSpeedUnit::KmH), 20);
    assert_eq!(wind.speed_in_unit(false, WindSpeedUnit::Mph), 12);
    assert_eq!(wind.speed_in_unit(false, WindSpeedUnit::Knots), 11);
}

#[test]
fn speed_in_unit_with_gust() {
    let wind = Wind::new(20, 30);
    assert_eq!(wind.speed_in_unit(true, WindSpeedUnit::KmH), 30);
    assert_eq!(wind.speed_in_unit(true, WindSpeedUnit::Mph), 19); // 30 * 0.621371 ≈ 19
    assert_eq!(wind.speed_in_unit(true, WindSpeedUnit::Knots), 16); // 30 * 0.539957 ≈ 16
}

#[test]
fn conversion_factors_are_accurate() {
    // 1 km/h = 0.621371 mph, 1 km/h = 0.539957 knots
    let test_cases = vec![(10, 6, 5), (50, 31, 27), (80, 50, 43), (120, 75, 65)];
    for (kmh, expected_mph, expected_knots) in test_cases {
        assert_eq!(
            Wind::convert_speed(kmh, WindSpeedUnit::Mph),
            expected_mph,
            "failed for {kmh} km/h to mph"
        );
        assert_eq!(
            Wind::convert_speed(kmh, WindSpeedUnit::Knots),
            expected_knots,
            "failed for {kmh} km/h to knots"
        );
    }
}


#[test]
fn high_snow_ratio_is_primarily_snow() {
    // 10cm snow × 1.43 = 14.3mm water, total precip = 8mm -> 178.75%
    let precip = Precipitation::new_with_snowfall(Some(80), Some(7), Some(9), Some(100));
    assert!(precip.is_primarily_snow());
}

#[test]
fn boundary_just_above_60_percent_is_snow() {
    // Open-Meteo ratio: 7cm snow = 10mm water. Median precip = 10mm.
    // 4.3cm -> 6.14mm > 6.0mm (60% of 10mm) -> snow.
    let precip = Precipitation::new_with_snowfall(Some(75), Some(9), Some(11), Some(43));
    assert!(precip.is_primarily_snow());
}

#[test]
fn boundary_just_below_60_percent_is_not_snow() {
    // 4.1cm -> 5.86mm < 6.0mm -> not snow.
    let precip = Precipitation::new_with_snowfall(Some(75), Some(9), Some(11), Some(41));
    assert!(!precip.is_primarily_snow());
}

#[test]
fn below_threshold_is_not_snow() {
    // 3cm snow = ~4.29mm water, total = 10mm -> 42.9% snow
    let precip = Precipitation::new_with_snowfall(Some(70), Some(9), Some(11), Some(30));
    assert!(!precip.is_primarily_snow());
}

#[test]
fn just_above_threshold_is_snow() {
    // 4.5cm snow → 6.435mm water, total = 10mm → 64.35%
    let precip = Precipitation::new_with_snowfall(Some(75), Some(9), Some(11), Some(45));
    assert!(precip.is_primarily_snow());
}

#[test]
fn just_below_threshold_is_not_snow() {
    // 4cm snow = ~5.72mm water, total = 10mm -> 57.2% snow
    let precip = Precipitation::new_with_snowfall(Some(75), Some(9), Some(11), Some(40));
    assert!(!precip.is_primarily_snow());
}

#[test]
fn no_snowfall_field_returns_false() {
    let precip = Precipitation::new(Some(80), Some(10), Some(20));
    assert!(!precip.is_primarily_snow());
}

#[test]
fn zero_snowfall_returns_false() {
    let precip = Precipitation::new_with_snowfall(Some(60), Some(5), Some(10), Some(0));
    assert!(!precip.is_primarily_snow());
}

#[test]
fn all_snow_no_rain() {
    // 14.3cm snow × 1.43 = 20.4mm water, total = 10mm -> 204%
    let precip = Precipitation::new_with_snowfall(Some(90), Some(9), Some(11), Some(143));
    assert!(precip.is_primarily_snow());
}

#[test]
fn light_snow_with_heavy_rain_is_not_primarily_snow() {
    // 1cm snow = ~1.43mm water, total = 20mm -> 7.15% snow
    let precip = Precipitation::new_with_snowfall(Some(85), Some(18), Some(22), Some(10));
    assert!(!precip.is_primarily_snow());
}

#[test]
fn winter_storm_scenario_is_snow() {
    // 20cm snow × 1.43 = 28.6mm water, total = 15mm -> 190%
    let precip = Precipitation::new_with_snowfall(Some(95), Some(14), Some(16), Some(200));
    assert!(precip.is_primarily_snow());
}

#[test]
fn mixed_precipitation_scenario_is_not_snow() {
    // 3cm snow = ~4.29mm water, total = 12mm -> 35.75% snow
    let precip = Precipitation::new_with_snowfall(Some(80), Some(11), Some(13), Some(30));
    assert!(!precip.is_primarily_snow());
}

#[test]
fn light_flurries_scenario_is_snow() {
    // 1cm snow = ~1.43mm water, total = 1mm -> 143% snow (all snow)
    let precip = Precipitation::new_with_snowfall(Some(40), Some(0), Some(1), Some(10));
    assert!(precip.is_primarily_snow());
}

#[test]
fn has_snow_true_with_snowfall() {
    let precip = Precipitation::new_with_snowfall(Some(50), Some(5), Some(10), Some(10));
    assert!(precip.has_snow());
}

#[test]
fn has_snow_false_without_snowfall() {
    let precip = Precipitation::new(Some(50), Some(5), Some(10));
    assert!(!precip.has_snow());
}

#[test]
fn has_snow_false_with_zero_snowfall() {
    let precip = Precipitation::new_with_snowfall(Some(50), Some(5), Some(10), Some(0));
    assert!(!precip.has_snow());
}
