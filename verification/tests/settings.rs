use pi_inky_weather_epd::configs::settings::{
    validate_release_cross_fields, Colour, DateFormat, GeoHash, GeoHashError, UpdateIntervalDays,
};

#[test]
fn allow_pre_release_with_zero_interval_is_rejected() {
    let result = validate_release_cross_fields(UpdateIntervalDays::try_new(0).unwrap(), true);
    assert!(result.is_err());
    let msg = result.unwrap_err();
    assert!(msg.contains("`allow_pre_release_version`"));
    assert!(msg.contains("`update_interval_days` is 0"));
}

#[test]
fn allow_pre_release_with_nonzero_interval_is_accepted() {
    assert!(validate_release_cross_fields(UpdateIntervalDays::try_new(7).unwrap(), true).is_ok());
}

#[test]
fn disallow_pre_release_with_zero_interval_is_accepted() {
    assert!(validate_release_cross_fields(UpdateIntervalDays::try_new(0).unwrap(), false).is_ok());
}

#[test]
fn disallow_pre_release_with_nonzero_interval_is_accepted() {
    assert!(validate_release_cross_fields(UpdateIntervalDays::try_new(7).unwrap(), false).is_ok());
}

#[test]
fn negative_update_interval_is_rejected() {
    let err = UpdateIntervalDays::try_new(-1).unwrap_err();
    assert_eq!(err.message, "Update interval days must be greater than or equal to 0");
    assert_eq!(UpdateIntervalDays::try_new(3).unwrap().into_inner(), 3);
}

#[test]
fn geohash_is_trimmed_lowercased_and_six_characters() {
    let g = GeoHash::try_new("  R3GX2U ").unwrap();
    assert_eq!(g.as_str(), "r3gx2u");
    assert!(matches!(GeoHash::try_new("r3gx2"), Err(GeoHashError::LenCharMinViolated)));
    assert!(matches!(GeoHash::try_new("r3gx2uu"), Err(GeoHashError::LenCharMaxViolated)));
}

#[test]
fn date_format_is_trimmed_and_validated() {
    assert_eq!(DateFormat::try_new("  %A, %d %B ").unwrap().as_str(), "%A, %d %B");
    assert!(DateFormat::try_new("   ").is_err());
    assert!(DateFormat::try_new("%A %B %A %B").is_err());
    assert!(DateFormat::try_new("%m/%d/%Y").is_ok());
}

#[test]
fn colour_accepts_named_hex_and_rgb_forms() {
    let no_float = |_: &str| false;
    assert_eq!(Colour::try_new(" red ", no_float).unwrap().as_str(), "red");
    assert!(Colour::try_new("#ff00aa", no_float).is_ok());
    assert!(Colour::try_new("#f0a", no_float).is_ok());
    assert!(Colour::try_new("rgb(255, 0, 12)", no_float).is_ok());
    assert!(Colour::try_new("rgb(256, 0, 12)", no_float).is_err());
    assert!(Colour::try_new("not-a-colour", no_float).is_err());
}
