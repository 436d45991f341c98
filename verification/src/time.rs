//! Rendering instants with chrono's strftime formatting.
//!
//! Instants are seconds since the Unix epoch; time zones are IANA names.
//! Formats are parsed leniently: an unknown specifier such as `%Q` is
//! written out literally instead of failing.
use vstd::prelude::*;
use chrono::{Datelike, TimeZone, Timelike};

verus! {

/// The text chrono renders for the UTC instant `utc_secs` with the strftime
/// `format`, parsed leniently (`StrftimeItems::new_lenient`); `None` when the
/// instant is outside chrono's date range.
pub uninterp spec fn chrono_format_utc(utc_secs: i64, format: Seq<char>) -> Option<Seq<char>>;

/// The text chrono renders for the instant `utc_secs` shown in the IANA time
/// zone `tz_name` (a `chrono_tz::Tz`), with the leniently parsed strftime
/// `format`; `None` when the zone name is unknown or the instant is out of range.
pub uninterp spec fn chrono_format_in_zone(utc_secs: i64, tz_name: Seq<char>, format: Seq<char>) -> Option<Seq<char>>;

/// The month (1–12) and the weekday (0 = Monday … 6 = Sunday) of the local
/// date of `utc_secs` in the IANA time zone `tz_name`; `None` when the zone
/// name is unknown or the instant is out of range.
pub uninterp spec fn chrono_local_month_weekday(utc_secs: i64, tz_name: Seq<char>) -> Option<(u32, u32)>;

/// The local calendar date of `utc_secs` in the IANA time zone `tz_name`,
/// counted as chrono's `Datelike::num_days_from_ce` (January 1 of year 1 is
/// day 1); `None` when the zone name is unknown or the instant is out of range.
pub uninterp spec fn chrono_local_days(utc_secs: i64, tz_name: Seq<char>) -> Option<i32>;

/// The instant of the local midnight that starts the local date of
/// `utc_secs` in the IANA time zone `tz_name` (that date's 00:00:00 local
/// time); `None` when the zone name is unknown or that local midnight does
/// not exist or is ambiguous.
pub uninterp spec fn chrono_local_midnight(utc_secs: i64, tz_name: Seq<char>) -> Option<i64>;

/// The local wall-clock date-time of `utc_secs` in the IANA time zone
/// `tz_name`, as the seconds from 1970-01-01T00:00 to that naive
/// date-time; `None` when the zone name is unknown or the instant is out of
/// range.
pub uninterp spec fn chrono_local_naive(utc_secs: i64, tz_name: Seq<char>) -> Option<i64>;

/// The naive date-time `naive_secs` (seconds from 1970-01-01T00:00) read
/// as local time in the zone `from_tz` (the earlier instant when ambiguous)
/// and shown as naive local time in the zone `to_tz`; `None` when a zone
/// name is unknown or the local time does not exist in `from_tz`.
pub uninterp spec fn chrono_relocalized(naive_secs: i64, from_tz: Seq<char>, to_tz: Seq<char>) -> Option<i64>;

/// Instants that chrono's `DateTime::from_timestamp` accepts for certain
/// (its date range spans years -262142 to 262142).
pub open spec fn in_chrono_range(utc_secs: i64) -> bool {
    -8_000_000_000_000 <= utc_secs && utc_secs <= 8_000_000_000_000
}

/// Formats a UTC instant with `chrono::DateTime::format_with_items` and
/// lenient strftime items. The contract names the rendered text and states
/// that an instant within chrono's date range is always rendered; the text
/// itself is not described.
#[verifier::external_body]
pub(crate) fn format_utc(utc_secs: i64, format: &str) -> (r: Option<String>)
    ensures
        match r {
            Some(s) => chrono_format_utc(utc_secs, format@) == Some(s@),
            None => chrono_format_utc(utc_secs, format@) is None,
        },
        in_chrono_range(utc_secs) ==> r is Some,
{
    let dt = chrono::DateTime::from_timestamp(utc_secs, 0)?;
    Some(dt.format_with_items(chrono::format::StrftimeItems::new_lenient(format)).to_string())
}

/// Formats an instant in an IANA time zone (parsed as `chrono_tz::Tz`) with
/// `chrono::DateTime::format_with_items` and lenient strftime items. The
/// contract names the rendered text; which zone names are known and what the
/// text holds are not described.
#[verifier::external_body]
pub(crate) fn format_in_zone(utc_secs: i64, tz_name: &str, format: &str) -> (r: Option<String>)
    ensures
        match r {
            Some(s) => chrono_format_in_zone(utc_secs, tz_name@, format@) == Some(s@),
            None => chrono_format_in_zone(utc_secs, tz_name@, format@) is None,
        },
{
    let tz: chrono_tz::Tz = tz_name.parse().ok()?;
    let dt = chrono::DateTime::from_timestamp(utc_secs, 0)?.with_timezone(&tz);
    Some(dt.format_with_items(chrono::format::StrftimeItems::new_lenient(format)).to_string())
}

/// The local month (`Datelike::month`, 1–12) and weekday
/// (`Weekday::num_days_from_monday`, 0–6) of an instant in an IANA time zone,
/// as chrono documents their ranges.
#[verifier::external_body]
pub(crate) fn local_month_weekday(utc_secs: i64, tz_name: &str) -> (r: Option<(u32, u32)>)
    ensures
        r == chrono_local_month_weekday(utc_secs, tz_name@),
        r matches Some((m, w)) ==> 1 <= m <= 12 && w <= 6,
{
    let tz: chrono_tz::Tz = tz_name.parse().ok()?;
    let dt = chrono::DateTime::from_timestamp(utc_secs, 0)?.with_timezone(&tz);
    Some((dt.month(), dt.weekday().num_days_from_monday()))
}

/// The local date of an instant in an IANA time zone, as
/// `NaiveDate::num_days_from_ce`. `date_naive` panics when the local time
/// leaves chrono's date range, so the instant must lie well inside it. Chrono's dates lie between January 1,
/// 262144 BCE and December 31, 262142 CE, so the count stays within
/// ±100,000,000 days; the contract names the date and states that bound.
#[verifier::external_body]
pub(crate) fn local_days_from_ce(utc_secs: i64, tz_name: &str) -> (r: Option<i32>)
    requires
        in_chrono_range(utc_secs),
    ensures
        r == chrono_local_days(utc_secs, tz_name@),
        r matches Some(d) ==> -100_000_000 < d < 100_000_000,
{
    let tz: chrono_tz::Tz = tz_name.parse().ok()?;
    let dt = chrono::DateTime::from_timestamp(utc_secs, 0)?.with_timezone(&tz);
    Some(dt.date_naive().num_days_from_ce())
}

/// The local midnight that starts an instant's local date: chrono's
/// `with_hour(0)`, `with_minute(0)` and `with_second(0)` on the local
/// date-time. The contract only names the result.
#[verifier::external_body]
pub(crate) fn local_midnight(utc_secs: i64, tz_name: &str) -> (r: Option<i64>)
    ensures
        r == chrono_local_midnight(utc_secs, tz_name@),
{
    let tz: chrono_tz::Tz = tz_name.parse().ok()?;
    let dt = chrono::DateTime::from_timestamp(utc_secs, 0)?.with_timezone(&tz);
    Some(dt.with_hour(0)?.with_minute(0)?.with_second(0)?.timestamp())
}

/// An instant's wall-clock date-time in an IANA time zone
/// (`with_timezone(..).naive_local()`), as seconds of the naive date-time.
/// `naive_local` panics when the local time leaves chrono's date range, so
/// the instant must lie well inside it.
/// The contract only names the result.
#[verifier::external_body]
pub(crate) fn local_naive_secs(utc_secs: i64, tz_name: &str) -> (r: Option<i64>)
    requires
        in_chrono_range(utc_secs),
    ensures
        r == chrono_local_naive(utc_secs, tz_name@),
{
    let tz: chrono_tz::Tz = tz_name.parse().ok()?;
    let dt = chrono::DateTime::from_timestamp(utc_secs, 0)?.with_timezone(&tz);
    Some(dt.naive_local().and_utc().timestamp())
}

/// A naive date-time read in one IANA zone (`from_local_datetime`, the
/// earliest instant when ambiguous) and shown as naive local time in
/// another. `naive_local` panics when the local time leaves chrono's date
/// range, so the date-time must lie well inside it. The contract only names the result.
#[verifier::external_body]
pub(crate) fn relocalize(naive_secs: i64, from_tz: &str, to_tz: &str) -> (r: Option<i64>)
    requires
        in_chrono_range(naive_secs),
    ensures
        r == chrono_relocalized(naive_secs, from_tz@, to_tz@),
{
    let from: chrono_tz::Tz = from_tz.parse().ok()?;
    let to: chrono_tz::Tz = to_tz.parse().ok()?;
    let naive = chrono::DateTime::from_timestamp(naive_secs, 0)?.naive_utc();
    let dt = from.from_local_datetime(&naive).earliest()?;
    Some(dt.with_timezone(&to).naive_local().and_utc().timestamp())
}

} // verus!
