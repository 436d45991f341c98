use chrono::{DateTime, Utc};
use pi_inky_weather_epd::dashboard::chart::hour_label;
use pi_inky_weather_epd::errors::GeohashError;
use pi_inky_weather_epd::utils::{encode_bits, escape_xml_text, find_max_item_between_dates, interleave, spread, total_between_dates};

fn instant(text: &str) -> i64 {
    text.parse::<DateTime<Utc>>().unwrap().timestamp()
}

fn points(pairs: &[(&str, i64)]) -> (Vec<i64>, Vec<i64>) {
    (pairs.iter().map(|(t, _)| instant(t)).collect(), pairs.iter().map(|(_, v)| *v).collect())
}

/// The top 32 bits of the significand of `coordinate / range + 1.5`, as the
/// geohash encoder takes them.
fn significand_bits(coordinate: f64, factor: f64) -> u32 {
    ((coordinate * factor + 1.5).to_bits() >> 20) as u32
}

fn encode(lon: f64, lat: f64, len: usize) -> Result<String, GeohashError> {
    encode_bits(significand_bits(lat, 0.005555555555555556), significand_bits(lon, 0.002777777777777778), len)
}

#[test]
fn empty_data_sums_to_zero() {
    let (t, v) = points(&[]);
    assert_eq!(total_between_dates(&t, &v, instant("2024-01-01T00:00:00Z"), instant("2024-01-02T00:00:00Z")), 0);
}

#[test]
fn single_item_in_range_is_included() {
    let (t, v) = points(&[("2024-01-01T12:00:00Z", 5)]);
    assert_eq!(total_between_dates(&t, &v, instant("2024-01-01T00:00:00Z"), instant("2024-01-02T00:00:00Z")), 5);
}

#[test]
fn sums_multiple_items_in_range() {
    let (t, v) = points(&[("2024-01-01T01:00:00Z", 1), ("2024-01-01T02:00:00Z", 2), ("2024-01-01T03:00:00Z", 3)]);
    assert_eq!(total_between_dates(&t, &v, instant("2024-01-01T00:00:00Z"), instant("2024-01-02T00:00:00Z")), 6);
}

#[test]
fn start_date_is_inclusive_end_date_is_exclusive() {
    let (t, v) = points(&[("2024-01-01T00:00:00Z", 10), ("2024-01-02T00:00:00Z", 100)]);
    assert_eq!(total_between_dates(&t, &v, instant("2024-01-01T00:00:00Z"), instant("2024-01-02T00:00:00Z")), 10);
}

#[test]
fn empty_data_returns_none() {
    let (t, v) = points(&[]);
    assert_eq!(find_max_item_between_dates(&t, &v, instant("2024-01-01T00:00:00Z"), instant("2024-01-02T00:00:00Z")), None);
}

#[test]
fn single_item_in_range_is_the_max() {
    let (t, v) = points(&[("2024-01-01T12:00:00Z", 5)]);
    assert_eq!(find_max_item_between_dates(&t, &v, instant("2024-01-01T00:00:00Z"), instant("2024-01-02T00:00:00Z")), Some(5));
}

#[test]
fn finds_max_among_multiple_items() {
    let (t, v) = points(&[("2024-01-01T01:00:00Z", 3), ("2024-01-01T02:00:00Z", 9), ("2024-01-01T03:00:00Z", 4)]);
    assert_eq!(find_max_item_between_dates(&t, &v, instant("2024-01-01T00:00:00Z"), instant("2024-01-02T00:00:00Z")), Some(9));
}

#[test]
fn end_date_is_exclusive() {
    let (t, v) = points(&[("2024-01-02T00:00:00Z", 100)]);
    assert_eq!(find_max_item_between_dates(&t, &v, instant("2024-01-01T00:00:00Z"), instant("2024-01-02T00:00:00Z")), None);
}

#[test]
fn all_negative_values_report_the_actual_max_not_zero() {
    let (t, v) = points(&[("2024-01-01T01:00:00Z", -10), ("2024-01-01T02:00:00Z", -3), ("2024-01-01T03:00:00Z", -7)]);
    assert_eq!(find_max_item_between_dates(&t, &v, instant("2024-01-01T00:00:00Z"), instant("2024-01-02T00:00:00Z")), Some(-3));
}

#[test]
fn spread_zero_is_zero() {
    assert_eq!(spread(0), 0);
}

#[test]
fn spread_deposits_bits_into_even_positions() {
    assert_eq!(spread(0b11), 0b101);
}

#[test]
fn interleave_combines_x_into_even_and_y_into_odd_bits() {
    assert_eq!(interleave(0b1, 0b1), 0b11);
}

#[test]
fn interleave_zero_and_zero_is_zero() {
    assert_eq!(interleave(0, 0), 0);
}

#[test]
fn known_coordinate_produces_expected_geohash() {
    // Sydney Opera House.
    assert_eq!(encode(151.2153, -33.8568, 6).unwrap(), "r3gx2u");
}

#[test]
fn zero_zero_produces_expected_geohash() {
    assert_eq!(encode(0.0, 0.0, 5).unwrap(), "s0000");
}

#[test]
fn length_zero_is_invalid() {
    assert!(encode(0.0, 0.0, 0).is_err());
}

#[test]
fn length_above_twelve_is_invalid() {
    assert!(encode(0.0, 0.0, 13).is_err());
}

#[test]
fn output_length_matches_requested_length() {
    assert_eq!(encode(-122.0, 45.0, 9).unwrap().len(), 9);
}

#[test]
fn output_length_always_equals_requested_length() {
    for (lon, lat) in [(-180.0, -90.0), (180.0, 90.0), (12.5, -7.25), (-0.1, 0.1)] {
        for len in 1..=12 {
            assert_eq!(encode(lon, lat, len).unwrap().len(), len);
        }
    }
    assert_eq!(encode(0.0, 0.0, 13), Err(GeohashError::InvalidLength(13)));
}

#[test]
fn spread_moves_each_bit_to_twice_its_position() {
    assert_eq!(spread(0xffff_ffff), 0x5555_5555_5555_5555);
    assert_eq!(interleave(0, 0xffff_ffff), 0xaaaa_aaaa_aaaa_aaaa);
}

#[test]
fn xml_text_is_escaped_ampersand_first() {
    assert_eq!(escape_xml_text("a < b & c > d"), "a &lt; b &amp; c &gt; d");
    assert_eq!(escape_xml_text("&lt;"), "&amp;lt;");
}

#[test]
fn hour_labels_use_a_twelve_hour_clock() {
    assert_eq!(hour_label(0), "12am");
    assert_eq!(hour_label(9), "9am");
    assert_eq!(hour_label(12), "12pm");
    assert_eq!(hour_label(13), "1pm");
    assert_eq!(hour_label(23), "11pm");
}
