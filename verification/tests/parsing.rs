use chrono::{Datelike, NaiveDate, TimeZone, Utc};
use pi_inky_weather_epd::apis::bom::parse_utc_datetimes;
use pi_inky_weather_epd::apis::open_meteo::{parse_iso_dates, parse_minute_datetimes};

#[test]
fn minute_datetimes_read_as_utc_seconds() {
    let raw = vec!["2025-10-09T13:00".to_string(), "2025-10-09T14:30".to_string()];
    let expected = vec![
        Utc.with_ymd_and_hms(2025, 10, 9, 13, 0, 0).unwrap().timestamp(),
        Utc.with_ymd_and_hms(2025, 10, 9, 14, 30, 0).unwrap().timestamp(),
    ];
    assert_eq!(parse_minute_datetimes(&raw), Some(expected));
    assert_eq!(parse_minute_datetimes(&vec![]), Some(vec![]));
}

#[test]
fn minute_datetimes_reject_any_bad_entry() {
    let raw = vec!["2025-10-09T13:00".to_string(), "2025-10-09 13:00".to_string()];
    assert_eq!(parse_minute_datetimes(&raw), None);
    assert_eq!(parse_minute_datetimes(&vec!["2025-10-09T13:00:00".to_string()]), None);
}

#[test]
fn iso_dates_read_as_day_numbers() {
    let raw = vec!["2025-10-09".to_string(), "2024-02-29".to_string()];
    let expected = vec![
        NaiveDate::from_ymd_opt(2025, 10, 9).unwrap().num_days_from_ce(),
        NaiveDate::from_ymd_opt(2024, 2, 29).unwrap().num_days_from_ce(),
    ];
    assert_eq!(parse_iso_dates(&raw), Some(expected));
    assert_eq!(parse_iso_dates(&vec!["2025-02-29".to_string()]), None);
}

#[test]
fn bom_timestamps_read_with_their_offset() {
    let raw = vec![Some("2025-10-09T13:00:00Z".to_string()), None, Some("2025-10-10T00:00:00+11:00".to_string())];
    let expected = vec![
        Some(Utc.with_ymd_and_hms(2025, 10, 9, 13, 0, 0).unwrap().timestamp()),
        None,
        Some(Utc.with_ymd_and_hms(2025, 10, 9, 13, 0, 0).unwrap().timestamp()),
    ];
    assert_eq!(parse_utc_datetimes(&raw), Some(expected));
    assert_eq!(parse_utc_datetimes(&vec![Some("yesterday".to_string())]), None);
}
