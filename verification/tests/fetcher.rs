use pi_inky_weather_epd::apis::bom::{BomError, ErrorDetail};
use pi_inky_weather_epd::apis::open_meteo::OpenMeteoError;
use pi_inky_weather_epd::configs::settings::Providers;
use pi_inky_weather_epd::errors::DashboardError;
use pi_inky_weather_epd::providers::bom::check_bom_error_response;
use pi_inky_weather_epd::providers::fetcher::{
    classify_error, classify_final_error, handle_rate_limit_response, is_error_retryable, next_fetch_step, parse_retry_after,
    parse_u64, response_decision, FetchFailure, FetchStep, RequestFailure, ResponseDecision, RetryConfig,
};
use pi_inky_weather_epd::providers::open_meteo::check_open_meteo_error_response;
use pi_inky_weather_epd::providers::FetchResult;

fn now() -> i128 {
    let t = chrono::Utc::now();
    t.timestamp() as i128 * 1_000_000_000 + t.timestamp_subsec_nanos() as i128
}

fn failure(status: Option<u16>, timeout: bool, connect: bool) -> RequestFailure {
    RequestFailure { status, is_timeout: timeout, is_connect: connect, is_request: false, message: "boom".to_string() }
}

fn config() -> RetryConfig {
    RetryConfig::new(5, vec![1, 2, 4, 16, 32], 60)
}

#[test]
fn integer_seconds() {
    assert_eq!(parse_retry_after("60", now()), Some(60));
    assert_eq!(parse_retry_after("120", now()), Some(120));
    assert_eq!(parse_retry_after("  30  ", now()), Some(30));
}

#[test]
fn http_date() {
    let future_date = chrono::Utc::now() + chrono::Duration::seconds(90);
    let rfc2822 = future_date.to_rfc2822();
    let seconds = parse_retry_after(&rfc2822, now()).unwrap();
    assert!((85..=95).contains(&seconds), "expected ~90 seconds, got {seconds}");
}

#[test]
fn retry_after_date_waits_whole_seconds_rounded_down() {
    let date = "Thu, 01 Jan 2026 00:01:30 +0000";
    let at = chrono::DateTime::parse_from_rfc2822(date).unwrap().timestamp() as i128 * 1_000_000_000;
    assert_eq!(parse_retry_after(date, at - 90_000_000_000), Some(90));
    assert_eq!(parse_retry_after(date, at - 89_500_000_000), Some(89));
    assert_eq!(parse_retry_after(date, at - 999_999_999), None);
    assert_eq!(parse_retry_after(date, at - 1_000_000_000), Some(1));
}

#[test]
fn past_date_returns_none() {
    let past_date = chrono::Utc::now() - chrono::Duration::seconds(60);
    assert_eq!(parse_retry_after(&past_date.to_rfc2822(), now()), None);
}

#[test]
fn invalid_format_returns_none() {
    assert_eq!(parse_retry_after("invalid", now()), None);
    assert_eq!(parse_retry_after("", now()), None);
    assert_eq!(parse_retry_after("not-a-number", now()), None);
}

#[test]
fn u64_parsing_matches_str_parse() {
    for text in ["0", "+7", "18446744073709551615", "18446744073709551616", "-1", "", "+", "1 2", "007"] {
        assert_eq!(parse_u64(text), text.parse::<u64>().ok(), "for {text:?}");
    }
}

#[test]
fn timeout_is_retryable() {
    assert!(is_error_retryable(&failure(None, true, false)));
}

#[test]
fn connection_failure_is_retryable() {
    assert!(is_error_retryable(&failure(None, false, true)));
}

#[test]
fn status_codes_decide_retry() {
    assert!(is_error_retryable(&failure(Some(500), false, false)));
    assert!(is_error_retryable(&failure(Some(429), false, false)));
    assert!(!is_error_retryable(&failure(Some(404), false, false)));
    assert!(!is_error_retryable(&failure(Some(400), false, false)));
}

#[test]
fn error_statuses_are_api_errors_with_reason() {
    match classify_error(&failure(Some(404), false, false)) {
        DashboardError::ApiError { details } => assert_eq!(details, "HTTP 404 Not Found"),
        other => panic!("expected ApiError, got {other:?}"),
    }
    match classify_error(&failure(Some(500), false, false)) {
        DashboardError::ApiError { details } => assert!(details.contains("500")),
        other => panic!("expected ApiError, got {other:?}"),
    }
}

#[test]
fn timeouts_and_connection_failures_are_network_problems() {
    match classify_error(&failure(None, true, false)) {
        DashboardError::NoInternet { details } => assert!(details.contains("timeout")),
        other => panic!("expected NoInternet, got {other:?}"),
    }
    match classify_error(&failure(None, false, true)) {
        DashboardError::NoInternet { details } => assert_eq!(details, "boom"),
        other => panic!("expected NoInternet, got {other:?}"),
    }
    let mut request = failure(None, false, false);
    request.is_request = true;
    match classify_error(&request) {
        DashboardError::ApiError { details } => assert_eq!(details, "Request error: boom"),
        other => panic!("expected ApiError, got {other:?}"),
    }
}

#[test]
fn rate_limit_honours_retry_after_up_to_the_cap() {
    let c = config();
    assert_eq!(handle_rate_limit_response(Some("10"), 0, &c, now()), Ok(10));
    assert_eq!(handle_rate_limit_response(None, 1, &c, now()), Ok(2));
    assert_eq!(
        handle_rate_limit_response(Some("61"), 0, &c, now()),
        Err("Rate limited with Retry-After of 61 seconds exceeding max of 60 seconds".to_string())
    );
    assert_eq!(handle_rate_limit_response(Some("1"), 4, &c, now()), Err("Rate limited after max retries".to_string()));
}

#[test]
fn client_errors_fall_back_and_others_retry() {
    let err = || Err(DashboardError::ApiError { details: "bad".to_string() });
    assert!(matches!(response_decision(400, err()), ResponseDecision::FallBack(_)));
    assert!(matches!(response_decision(200, err()), ResponseDecision::Retry(_)));
    assert!(matches!(response_decision(503, err()), ResponseDecision::Retry(_)));
    assert!(matches!(response_decision(200, Ok(())), ResponseDecision::Accept));
}

#[test]
fn retries_follow_the_configured_delays() {
    let c = config();
    assert_eq!(next_fetch_step(&FetchFailure::Other("x".to_string()), 0, &c), FetchStep::Attempt { attempt: 1, delay_secs: 1 });
    assert_eq!(next_fetch_step(&FetchFailure::Request(failure(None, true, false)), 2, &c), FetchStep::Attempt { attempt: 3, delay_secs: 4 });
    assert_eq!(next_fetch_step(&FetchFailure::Request(failure(Some(404), false, false)), 0, &c), FetchStep::FallBack);
    assert_eq!(next_fetch_step(&FetchFailure::Other("x".to_string()), 4, &c), FetchStep::FallBack);
}

#[test]
fn final_error_is_classified_from_the_last_failure() {
    assert!(matches!(classify_final_error(Some(FetchFailure::Other("x".to_string()))), Ok(DashboardError::NoInternet { .. })));
    assert!(matches!(classify_final_error(Some(FetchFailure::Transient(DashboardError::ApiError { details: "o".to_string() }))), Ok(DashboardError::ApiError { .. })));
    assert_eq!(classify_final_error(None).unwrap_err(), "Failed to fetch data and no error information available");
}

#[test]
fn malformed_bom_body_is_ok() {
    assert!(check_bom_error_response(None).is_ok());
    assert!(check_bom_error_response(Some(BomError { errors: vec![] })).is_ok());
}

#[test]
fn single_bom_error_becomes_its_own_detail_message() {
    let parsed = BomError { errors: vec![ErrorDetail { detail: "Invalid geohash".to_string() }] };
    match check_bom_error_response(Some(parsed)).unwrap_err() {
        DashboardError::ApiError { details } => assert_eq!(details, "Invalid geohash"),
        other => panic!("expected ApiError, got {other:?}"),
    }
}

#[test]
fn multiple_bom_errors_are_combined_and_numbered() {
    let parsed = BomError {
        errors: vec![ErrorDetail { detail: "Invalid geohash".to_string() }, ErrorDetail { detail: "Rate limited".to_string() }],
    };
    match check_bom_error_response(Some(parsed)).unwrap_err() {
        DashboardError::ApiError { details } => {
            assert_eq!(details, "BOM API returned 2 errors:\n  1. Invalid geohash\n  2. Rate limited");
        }
        other => panic!("expected ApiError, got {other:?}"),
    }
}

#[test]
fn open_meteo_error_flag_decides() {
    assert!(check_open_meteo_error_response(None).is_ok());
    assert!(check_open_meteo_error_response(Some(OpenMeteoError { error: false, reason: String::new() })).is_ok());
    let parsed = OpenMeteoError { error: true, reason: "Latitude must be in range of -90 to 90".to_string() };
    match check_open_meteo_error_response(Some(parsed)).unwrap_err() {
        DashboardError::ApiError { details } => assert_eq!(details, "Latitude must be in range of -90 to 90"),
        other => panic!("expected ApiError, got {other:?}"),
    }
}

#[test]
fn cache_file_names_carry_the_provider_prefix() {
    assert_eq!(Providers::Bom.get_cache_filename("hourly_forecast.json"), "bom_hourly_forecast.json");
    assert_eq!(Providers::OpenMeteo.get_cache_filename("daily_forecast.json"), "open_meteo_daily_forecast.json");
}

#[test]
fn fetch_results_carry_warnings_only_when_stale() {
    assert!(FetchResult::fresh(3).warning.is_none());
    let stale = FetchResult::stale(3, DashboardError::NoInternet { details: "x".to_string() });
    assert_eq!(stale.data, 3);
    assert!(stale.warning.is_some());
}
