//! The decisions of the retrying fetcher: how failed requests are
//! classified, which are retried and after how long, and what a response
//! whose body signals an error leads to.
use vstd::prelude::*;
use crate::configs::validation::{all_digits, digits_value, lemma_digits_value_grows};
use crate::errors::DashboardError;
use crate::text::{chars_of, nat_to_decimal, owned, trim, trim_spec, u64_to_string};

verus! {

/// Retry behaviour: how many attempts, the delays between them (seconds)
/// and the longest `Retry-After` (seconds) that is honoured.
pub struct RetryConfig {
    pub max_retries: usize,
    pub retry_delays: Vec<u64>,
    pub max_retry_after_secs: u64,
}

impl RetryConfig {
    /// A retry configuration; there must be a delay for every retry.
    pub fn new(max_retries: usize, retry_delays: Vec<u64>, max_retry_after_secs: u64) -> (r: RetryConfig)
        requires
            max_retries <= retry_delays@.len(),
        ensures
            r.max_retries == max_retries,
            r.retry_delays@ == retry_delays@,
            r.max_retry_after_secs == max_retry_after_secs,
    {
        RetryConfig { max_retries, retry_delays, max_retry_after_secs }
    }
}

/// The outcome of a fetch: fresh data, or stale cached data with the error
/// that prevented a fresh fetch.
pub enum FetchOutcome<T> {
    Fresh(T),
    Stale { data: T, error: DashboardError },
}

/// What a failed request reports about itself.
#[derive(Debug, Clone)]
pub struct RequestFailure {
    /// The HTTP status, when the server answered with an error status.
    pub status: Option<u16>,
    pub is_timeout: bool,
    pub is_connect: bool,
    /// Whether building or sending the request failed.
    pub is_request: bool,
    /// The error's text.
    pub message: String,
}

/// The canonical reason phrase of an HTTP status, as the `http` crate that
/// `reqwest` re-exports knows it.
pub uninterp spec fn http_reason_phrase(status: u16) -> Option<Seq<char>>;

/// `reqwest::StatusCode::canonical_reason` of a status (`None` for codes
/// outside 100–999 or without a registered phrase). The contract only
/// names the phrase.
#[verifier::external_body]
fn canonical_reason(status: u16) -> (r: Option<&'static str>)
    ensures
        match r {
            Some(s) => http_reason_phrase(status) == Some(s@),
            None => http_reason_phrase(status) is None,
        },
{
    reqwest::StatusCode::from_u16(status).ok()?.canonical_reason()
}

/// The details of an HTTP error status: `HTTP <code> <reason>`.
pub open spec fn status_details(status: u16) -> Seq<char> {
    "HTTP "@ + nat_to_decimal(status as nat) + " "@ + match http_reason_phrase(status) {
        Some(p) => p,
        None => "Unknown"@,
    }
}

/// How a failed request is reported: an error status is an API error; a
/// timeout or a failed connection is a network problem; a failure to build
/// or send the request is an API error; anything else a network problem.
pub open spec fn classified(e: RequestFailure) -> (bool, Seq<char>) {
    match e.status {
        Some(s) => (true, status_details(s)),
        None => if e.is_timeout {
            (false, "Request timeout - server took too long to respond"@)
        } else if e.is_connect {
            (false, e.message@)
        } else if e.is_request {
            (true, "Request error: "@ + e.message@)
        } else {
            (false, "Network error: "@ + e.message@)
        },
    }
}

/// Classifies a failed request as a diagnostic.
pub fn classify_error(error: &RequestFailure) -> (r: DashboardError)
    ensures
        (r is ApiError) == classified(*error).0,
        (r is NoInternet) == !classified(*error).0,
        r.details_of() == classified(*error).1,
{
    match error.status {
        Some(status) => {
            let mut details = owned("HTTP ");
            details.append(u64_to_string(status as u64).as_str());
            details.append(" ");
            match canonical_reason(status) {
                Some(p) => details.append(p),
                None => details.append("Unknown"),
            }
            DashboardError::ApiError { details }
        },
        None => {
            if error.is_timeout {
                DashboardError::NoInternet { details: owned("Request timeout - server took too long to respond") }
            } else if error.is_connect {
                DashboardError::NoInternet { details: owned(error.message.as_str()) }
            } else if error.is_request {
                let mut details = owned("Request error: ");
                details.append(error.message.as_str());
                DashboardError::ApiError { details }
            } else {
                let mut details = owned("Network error: ");
                details.append(error.message.as_str());
                DashboardError::NoInternet { details }
            }
        },
    }
}

/// Whether a failed request is worth retrying: timeouts, failed
/// connections, rate limiting (429) and server errors (5xx).
pub open spec fn retryable(e: RequestFailure) -> bool {
    e.is_timeout || e.is_connect || match e.status {
        Some(s) => s == 429 || (500 <= s && s <= 599),
        None => false,
    }
}

/// Which failed requests are retried: every timeout, every failed
/// connection, rate limiting (HTTP 429) and every server error (HTTP
/// 500–599); no other failure is. Before the last attempt a retryable
/// failure leads to another attempt.
pub proof fn lemma_retryable_failures(e: RequestFailure, attempt: usize, max_retries: usize)
    ensures
        e.is_timeout || e.is_connect ==> retryable(e),
        e.status == Some(429u16) ==> retryable(e),
        e.status matches Some(s) && 500 <= s <= 599 ==> retryable(e),
        !e.is_timeout && !e.is_connect && !(e.status matches Some(s) && (s == 429 || 500 <= s <= 599)) ==> !retryable(e),
        retryable(e) && attempt + 1 < max_retries ==> retries_after(FetchFailure::Request(e), attempt, max_retries),
        !retryable(e) ==> !retries_after(FetchFailure::Request(e), attempt, max_retries),
{
}

/// Checks if a failed request is retryable.
pub fn is_error_retryable(error: &RequestFailure) -> (r: bool)
    ensures
        r == retryable(*error),
        error.is_timeout || error.is_connect ==> r,
        error.status matches Some(s) && (s == 429 || 500 <= s <= 599) ==> r,
        !error.is_timeout && !error.is_connect && !(error.status matches Some(s) && (s == 429 || 500 <= s <= 599)) ==> !r,
{
    if error.is_timeout || error.is_connect {
        return true;
    }
    match error.status {
        Some(s) => s == 429 || (500 <= s && s <= 599),
        None => false,
    }
}

/// `s` as `u64::from_str` reads it: an optional `+`, then one or more ASCII
/// digits whose value fits in a `u64`.
pub open spec fn u64_parse(s: Seq<char>) -> Option<u64> {
    let d = if s.len() > 0 && s[0] == '+' { s.drop_first() } else { s };
    if all_digits(d) && digits_value(d) <= u64::MAX {
        Some(digits_value(d) as u64)
    } else {
        None
    }
}

/// Parses a `u64` as `str::parse` does.
pub fn parse_u64(s: &str) -> (r: Option<u64>)
    ensures
        r == u64_parse(s@),
{
    let t = chars_of(s);
    let n = t.len();
    let start: usize = if n > 0 && t[0] == '+' { 1 } else { 0 };
    let ghost d = if s@.len() > 0 && s@[0] == '+' { s@.drop_first() } else { s@ };
    assert(d =~= t@.subrange(start as int, n as int));
    if start >= n {
        return None;
    }
    let mut value: u128 = 0;
    let mut i: usize = start;
    let cap: u128 = 0x1_0000_0000_0000_0000;
    assert(t@.subrange(start as int, start as int) =~= Seq::<char>::empty());
    while i < n
        invariant
            start <= i <= n,
            n == t@.len(),
            t@ == s@,
            cap == 0x1_0000_0000_0000_0000u128,
            start == (if n > 0 && t@[0] == '+' { 1usize } else { 0usize }),
            d == t@.subrange(start as int, n as int),
            forall|j: int| start <= j < i ==> '0' <= #[trigger] t@[j] && t@[j] <= '9',
            value as nat == if digits_value(t@.subrange(start as int, i as int)) >= cap { cap as nat } else { digits_value(t@.subrange(start as int, i as int)) },
        decreases n - i,
    {
        let c = t[i];
        if !('0' <= c && c <= '9') {
            assert(d[i - start] == c);
            assert(!all_digits(d));
            return None;
        }
        assert(value <= cap);
        proof {
            assert(t@.subrange(start as int, i + 1) =~= t@.subrange(start as int, i as int).push(c));
            lemma_digits_value_grows(t@.subrange(start as int, i as int), c);
        }
        let digit: u128 = (c as u32 - 48) as u128;
        value = if value * 10 + digit >= cap { cap } else { value * 10 + digit };
        i = i + 1;
    }
    assert(t@.subrange(start as int, n as int) =~= d);
    assert(all_digits(d));
    if value < cap {
        Some(value as u64)
    } else {
        None
    }
}

/// The instant written in RFC 2822 form in `text`, in seconds since the
/// epoch, as chrono's `DateTime::parse_from_rfc2822` reads it.
pub uninterp spec fn rfc2822_instant(text: Seq<char>) -> Option<i64>;

/// `chrono::DateTime::parse_from_rfc2822` as an instant in seconds. The
/// contract only names the instant.
#[verifier::external_body]
fn parse_rfc2822_secs(text: &str) -> (r: Option<i64>)
    ensures
        r == rfc2822_instant(text@),
{
    chrono::DateTime::parse_from_rfc2822(text).ok().map(|d| d.timestamp())
}

/// The instants in nanoseconds that the fetcher handles (about ±250,000
/// years).
pub open spec fn in_nanos_range(now: i128) -> bool {
    -8_000_000_000_000_000_000_000 <= now <= 8_000_000_000_000_000_000_000
}

/// A `Retry-After` value at the instant `now` (nanoseconds since the
/// epoch): whole seconds (surrounding whitespace allowed), or an HTTP date
/// at least a second in the future, as the whole seconds until it
/// (rounded down).
pub open spec fn retry_after_secs(value: Seq<char>, now: i128) -> Option<u64> {
    match u64_parse(trim_spec(value)) {
        Some(n) => Some(n),
        None => match rfc2822_instant(value) {
            Some(t) => {
                let wait = t * 1_000_000_000 - now;
                if wait >= 1_000_000_000 { Some((wait / 1_000_000_000) as u64) } else { None }
            },
            None => None,
        },
    }
}

/// Parses a `Retry-After` header value (seconds as an integer, or an HTTP
/// date) at the instant `now_utc_nanos` (nanoseconds since the epoch).
pub fn parse_retry_after(value: &str, now_utc_nanos: i128) -> (r: Option<u64>)
    requires
        in_nanos_range(now_utc_nanos),
    ensures
        r == retry_after_secs(value@, now_utc_nanos),
{
    let t = trim(value);
    match parse_u64(t.as_str()) {
        Some(n) => Some(n),
        None => match parse_rfc2822_secs(value) {
            Some(date) => {
                let wait: i128 = date as i128 * 1_000_000_000 - now_utc_nanos;
                if wait >= 1_000_000_000 {
                    Some((wait / 1_000_000_000) as u64)
                } else {
                    None
                }
            },
            None => None,
        },
    }
}

/// The delay configured for `index`, or 32 seconds past the configured ones.
pub open spec fn delay_at(delays: Seq<u64>, index: int) -> u64 {
    if 0 <= index < delays.len() { delays[index] } else { 32 }
}

/// The delay configured for `index`, or 32 seconds past the configured ones.
fn configured_delay(config: &RetryConfig, index: usize) -> (r: u64)
    ensures
        r == delay_at(config.retry_delays@, index as int),
{
    if index < config.retry_delays.len() {
        config.retry_delays[index]
    } else {
        32
    }
}

/// The message when a `Retry-After` exceeds the cap.
pub open spec fn rate_limit_cap_message(retry_after: u64, max: u64) -> Seq<char> {
    "Rate limited with Retry-After of "@ + nat_to_decimal(retry_after as nat) + " seconds exceeding max of "@
        + nat_to_decimal(max as nat) + " seconds"@
}

/// How long to wait after a rate-limited (429) attempt: the `Retry-After`
/// header when it parses, else the configured delay for this attempt. A
/// wait beyond the cap, or a rate limit on the last attempt, gives up.
pub open spec fn rate_limit_wait(retry_after: Option<Seq<char>>, attempt: usize, config: RetryConfig, now: i128) -> Result<u64, Seq<char>> {
    let wait = match retry_after {
        Some(v) => match retry_after_secs(v, now) {
            Some(s) => s,
            None => delay_at(config.retry_delays@, attempt as int),
        },
        None => delay_at(config.retry_delays@, attempt as int),
    };
    if wait > config.max_retry_after_secs {
        Err(rate_limit_cap_message(wait, config.max_retry_after_secs))
    } else if attempt >= config.max_retries - 1 {
        Err("Rate limited after max retries"@)
    } else {
        Ok(wait)
    }
}

/// Decides how to handle an HTTP 429 response to attempt `attempt`, with
/// its `Retry-After` header value if any: `Ok(seconds)` to retry after that
/// wait, `Err(message)` to stop.
pub fn handle_rate_limit_response(retry_after: Option<&str>, attempt: usize, config: &RetryConfig, now_utc_nanos: i128) -> (r: Result<u64, String>)
    requires
        in_nanos_range(now_utc_nanos),
        config.max_retries >= 1,
    ensures
        match rate_limit_wait(match retry_after { Some(v) => Some(v@), None => None }, attempt, *config, now_utc_nanos) {
            Ok(w) => r == Ok::<u64, String>(w),
            Err(m) => r matches Err(s) && s@ == m,
        },
        r matches Ok(w) ==> w <= config.max_retry_after_secs && attempt + 1 < config.max_retries,
{
    let wait = match retry_after {
        Some(v) => match parse_retry_after(v, now_utc_nanos) {
            Some(s) => s,
            None => configured_delay(config, attempt),
        },
        None => configured_delay(config, attempt),
    };
    if wait > config.max_retry_after_secs {
        let mut m = owned("Rate limited with Retry-After of ");
        m.append(u64_to_string(wait).as_str());
        m.append(" seconds exceeding max of ");
        m.append(u64_to_string(config.max_retry_after_secs).as_str());
        m.append(" seconds");
        return Err(m);
    }
    if attempt >= config.max_retries - 1 {
        return Err(owned("Rate limited after max retries"));
    }
    Ok(wait)
}

/// What to do with a response once its body was checked for API errors.
#[derive(Debug)]
pub enum ResponseDecision {
    /// No error: cache and use the body.
    Accept,
    /// A client error (4xx) that would fail the same way again: use cached data.
    FallBack(DashboardError),
    /// Any other error in the body: transient, retry with backoff.
    Retry(DashboardError),
}

/// Decides on a response with HTTP status `status` whose body check gave
/// `check`: fine bodies are accepted; an error with a 4xx status falls back
/// to cached data at once; any other error is retried as transient.
pub fn response_decision(status: u16, check: Result<(), DashboardError>) -> (r: ResponseDecision)
    ensures
        match check {
            Ok(()) => r is Accept,
            Err(e) => if 400 <= status && status <= 499 {
                r matches ResponseDecision::FallBack(f) && f == e
            } else {
                r matches ResponseDecision::Retry(f) && f == e
            },
        },
{
    match check {
        Ok(()) => ResponseDecision::Accept,
        Err(e) => {
            if 400 <= status && status <= 499 {
                ResponseDecision::FallBack(e)
            } else {
                ResponseDecision::Retry(e)
            }
        },
    }
}

/// Why an attempt failed.
#[derive(Debug)]
pub enum FetchFailure {
    /// The request failed (network, timeout or error status).
    Request(RequestFailure),
    /// The response body signalled a transient API error.
    Transient(DashboardError),
    /// Anything else (such as a rate limit), with its message.
    Other(String),
}

/// What the fetcher does next.
#[derive(Debug, Clone, Copy, PartialEq, Eq, Structural)]
pub enum FetchStep {
    /// Wait `delay_secs` seconds, then make attempt `attempt`.
    Attempt { attempt: usize, delay_secs: u64 },
    /// Stop retrying and fall back to cached data.
    FallBack,
}

/// Whether a failed attempt leaves room for another: always while attempts
/// remain, except after a request failure that is not retryable.
pub open spec fn retries_after(failure: FetchFailure, attempt: usize, max_retries: usize) -> bool {
    &&& attempt + 1 < max_retries
    &&& match failure {
        FetchFailure::Request(e) => retryable(e),
        _ => true,
    }
}

/// The step after attempt `attempt` failed with `failure`: another attempt
/// after the delay configured before it, or falling back to cached data.
pub fn next_fetch_step(failure: &FetchFailure, attempt: usize, config: &RetryConfig) -> (r: FetchStep)
    requires
        attempt < config.max_retries,
    ensures
        retries_after(*failure, attempt, config.max_retries) ==> r == (FetchStep::Attempt {
            attempt: (attempt + 1) as usize,
            delay_secs: delay_at(config.retry_delays@, attempt as int),
        }),
        !retries_after(*failure, attempt, config.max_retries) ==> r == FetchStep::FallBack,
        r matches FetchStep::Attempt { attempt: a, .. } ==> a < config.max_retries,
{
    let retry = match failure {
        FetchFailure::Request(e) => is_error_retryable(e),
        _ => true,
    };
    if retry && attempt + 1 < config.max_retries {
        FetchStep::Attempt { attempt: attempt + 1, delay_secs: configured_delay(config, attempt) }
    } else {
        FetchStep::FallBack
    }
}

/// The diagnostic reported once retries are exhausted, from the last
/// failure: a request failure as classified, a transient API error as it
/// was, anything else as a network problem with its message; with no
/// failure recorded there is nothing to report.
pub fn classify_final_error(last_error: Option<FetchFailure>) -> (r: Result<DashboardError, String>)
    ensures
        match last_error {
            Some(FetchFailure::Request(e)) => r matches Ok(d)
                && (d is ApiError) == classified(e).0 && d.details_of() == classified(e).1,
            Some(FetchFailure::Transient(d)) => r == Ok::<DashboardError, String>(d),
            Some(FetchFailure::Other(m)) => r matches Ok(d) && d is NoInternet && d.details_of() == m@,
            None => r matches Err(m) && m@ == "Failed to fetch data and no error information available"@,
        },
{
    match last_error {
        Some(FetchFailure::Request(e)) => Ok(classify_error(&e)),
        Some(FetchFailure::Transient(d)) => Ok(d),
        Some(FetchFailure::Other(m)) => Ok(DashboardError::NoInternet { details: m }),
        None => Err(owned("Failed to fetch data and no error information available")),
    }
}

} // verus!
