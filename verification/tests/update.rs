use pi_inky_weather_epd::update::{
    parse_latest_version, read_last_update_status, release_action, update_check_decision, update_status_text, ParsedVersion,
    ReleaseAction, UpdateCheck,
};

#[test]
fn status_text_records_success_or_the_error() {
    assert_eq!(update_status_text(&Ok(())), "success");
    assert_eq!(update_status_text(&Err("network down".to_string())), "failed: network down");
}

#[test]
fn last_failure_is_read_back_from_the_status() {
    assert_eq!(read_last_update_status(Some("failed: network down")), Some("network down".to_string()));
    assert_eq!(read_last_update_status(Some("success")), None);
    assert_eq!(read_last_update_status(None), None);
    let written = update_status_text(&Err("x: y".to_string()));
    assert_eq!(read_last_update_status(Some(&written)), Some("x: y".to_string()));
}

#[test]
fn update_check_is_due_after_the_interval() {
    let last = "2025-01-01T00:00:00+00:00";
    let t = chrono::DateTime::parse_from_rfc3339(last).unwrap().timestamp() as i128 * 1_000_000_000;
    let week: i128 = 7 * 86_400 * 1_000_000_000;
    assert_eq!(update_check_decision(None, t, 7), Ok(UpdateCheck::FirstCheck));
    assert_eq!(update_check_decision(Some(last), t + week, 7), Ok(UpdateCheck::NotDue));
    assert_eq!(update_check_decision(Some(&format!(" {last}\n")), t + week + 1, 7), Ok(UpdateCheck::Due));
    assert!(update_check_decision(Some("yesterday"), t, 7).is_err());
}

#[test]
fn update_check_counts_fractions_of_a_second() {
    let last = "2025-01-01T00:00:00.250+00:00";
    let t = chrono::DateTime::parse_from_rfc3339("2025-01-01T00:00:00+00:00").unwrap().timestamp() as i128 * 1_000_000_000;
    let day: i128 = 86_400 * 1_000_000_000;
    assert_eq!(update_check_decision(Some(last), t + day + 250_000_000, 1), Ok(UpdateCheck::NotDue));
    assert_eq!(update_check_decision(Some(last), t + day + 250_000_001, 1), Ok(UpdateCheck::Due));
}

#[test]
fn release_tags_lose_their_v_prefix() {
    let v = parse_latest_version("v1.4.0").unwrap();
    let current = ParsedVersion::parse("1.3.9").unwrap();
    assert_eq!(release_action(&v, &current, false), ReleaseAction::Install);
    assert_eq!(parse_latest_version("vvnot-a-version").err(), Some("Failed to parse latest version".to_string()));
}

#[test]
fn pre_releases_need_permission() {
    let pre = parse_latest_version("v2.0.0-beta.1").unwrap();
    let current = ParsedVersion::parse("1.9.0").unwrap();
    assert_eq!(release_action(&pre, &current, false), ReleaseAction::SkipPreRelease);
    assert_eq!(release_action(&pre, &current, true), ReleaseAction::Install);
    let same = ParsedVersion::parse("1.9.0").unwrap();
    assert_eq!(release_action(&same, &current, true), ReleaseAction::UpToDate);
}
