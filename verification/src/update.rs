//! The decisions of the self-update: when to check for a release, which
//! release to install, and the status recorded for the dashboard.
use vstd::prelude::*;
use crate::text::{owned, trim, trim_spec, has_prefix, starts_with};

verus! {

/// The status recorded after an update check: `success`, or `failed: `
/// followed by the error.
pub open spec fn status_text(result: Result<(), Seq<char>>) -> Seq<char> {
    match result {
        Ok(()) => "success"@,
        Err(e) => "failed: "@ + e,
    }
}

/// The text written to the update status file for the result of a check.
pub fn update_status_text(result: &Result<(), String>) -> (r: String)
    ensures
        r@ == status_text(match result { Ok(()) => Ok(()), Err(e) => Err(e@) }),
{
    match result {
        Ok(()) => owned("success"),
        Err(e) => {
            let mut s = owned("failed: ");
            s.append(e.as_str());
            s
        },
    }
}

/// The failure recorded in a status file's contents: the text after a
/// leading `failed: `, or none when the last check did not fail.
pub open spec fn recorded_failure(contents: Seq<char>) -> Option<Seq<char>> {
    if has_prefix(contents, "failed: "@) {
        Some(contents.skip(8))
    } else {
        None
    }
}

/// The error of the last update check, from the status file's contents
/// (`None` when the file could not be read, or the check succeeded).
pub fn read_last_update_status(contents: Option<&str>) -> (r: Option<String>)
    ensures
        match contents {
            Some(c) => match recorded_failure(c@) {
                Some(f) => r matches Some(s) && s@ == f,
                None => r is None,
            },
            None => r is None,
        },
{
    let c = match contents {
        Some(c) => c,
        None => return None,
    };
    proof {
        reveal_strlit("failed: ");
    }
    if starts_with(c, "failed: ") {
        let n = c.unicode_len();
        Some(owned(c.substring_char(8, n)))
    } else {
        None
    }
}

/// What is recorded after a check is read back: the error of a failed check,
/// nothing after a successful one.
pub proof fn lemma_status_round_trip(result: Result<(), Seq<char>>)
    ensures
        recorded_failure(status_text(result)) == match result {
            Ok(()) => None::<Seq<char>>,
            Err(e) => Some(e),
        },
{
    reveal_strlit("failed: ");
    reveal_strlit("success");
    match result {
        Ok(()) => {
            assert(status_text(result)[0] == 's');
        },
        Err(e) => {
            let t = status_text(result);
            assert(t.subrange(0, 8) =~= "failed: "@);
            assert(t.skip(8) =~= e);
        },
    }
}

/// The instant written in RFC 3339 form in `text`, as whole seconds since
/// the epoch and the nanoseconds past them, or the message chrono's
/// `DateTime::parse_from_rfc3339` fails with.
pub uninterp spec fn rfc3339_instant(text: Seq<char>) -> Result<(i64, u32), Seq<char>>;

/// `chrono::DateTime::parse_from_rfc3339` as an instant (`timestamp()` and
/// `timestamp_subsec_nanos()`; the error as its message). The contract only
/// names the result.
#[verifier::external_body]
fn parse_rfc3339_instant(text: &str) -> (r: Result<(i64, u32), String>)
    ensures
        match r {
            Ok(t) => rfc3339_instant(text@) == Ok::<(i64, u32), Seq<char>>(t),
            Err(m) => rfc3339_instant(text@) == Err::<(i64, u32), Seq<char>>(m@),
        },
{
    match chrono::DateTime::parse_from_rfc3339(text) {
        Ok(d) => Ok((d.timestamp(), d.timestamp_subsec_nanos())),
        Err(e) => Err(e.to_string()),
    }
}

/// An instant in nanoseconds since the epoch.
pub open spec fn instant_nanos(t: (i64, u32)) -> int {
    t.0 * 1_000_000_000 + t.1
}

/// Whether to look for a release now.
#[derive(Debug, Clone, Copy, PartialEq, Eq, Structural)]
pub enum UpdateCheck {
    /// Never checked before: record the time and check.
    FirstCheck,
    /// More than the interval has passed since the last check: check.
    Due,
    /// Checked recently: skip.
    NotDue,
}

/// The decision of an update check at `now` (nanoseconds since the epoch):
/// a first check when nothing was recorded; otherwise due when more than
/// `interval_days` days passed since the recorded instant (trimmed RFC 3339
/// text), to the nanosecond; an unreadable record is an error.
pub open spec fn check_decision(last_checked: Option<Seq<char>>, now: i128, interval_days: i32) -> Result<UpdateCheck, Seq<char>> {
    match last_checked {
        None => Ok(UpdateCheck::FirstCheck),
        Some(c) => match rfc3339_instant(trim_spec(c)) {
            Ok(t) => if now - instant_nanos(t) > interval_days * 86_400_000_000_000 {
                Ok(UpdateCheck::Due)
            } else {
                Ok(UpdateCheck::NotDue)
            },
            Err(m) => Err(m),
        },
    }
}

/// An update check is a first check when nothing was recorded; otherwise
/// it is not due until more than `interval_days` whole days (of 86,400
/// seconds) have passed since the recorded instant, due from the next
/// nanosecond on, and an unreadable record is reported as its parse error.
pub proof fn lemma_update_check_timing(recorded: Seq<char>, now: i128, interval_days: i32)
    ensures
        check_decision(None, now, interval_days) == Ok::<UpdateCheck, Seq<char>>(UpdateCheck::FirstCheck),
        rfc3339_instant(trim_spec(recorded)) matches Ok(t)
            && now <= t.0 * 1_000_000_000 + t.1 + interval_days * 86_400 * 1_000_000_000
            ==> check_decision(Some(recorded), now, interval_days) == Ok::<UpdateCheck, Seq<char>>(UpdateCheck::NotDue),
        rfc3339_instant(trim_spec(recorded)) matches Ok(t)
            && now > t.0 * 1_000_000_000 + t.1 + interval_days * 86_400 * 1_000_000_000
            ==> check_decision(Some(recorded), now, interval_days) == Ok::<UpdateCheck, Seq<char>>(UpdateCheck::Due),
        rfc3339_instant(trim_spec(recorded)) matches Err(m)
            ==> check_decision(Some(recorded), now, interval_days) == Err::<UpdateCheck, Seq<char>>(m),
{
}

/// Decides whether to check for a release at `now_utc_nanos` (nanoseconds
/// since the epoch), given the contents of the last-checked file if it
/// exists.
pub fn update_check_decision(last_checked: Option<&str>, now_utc_nanos: i128, interval_days: i32) -> (r: Result<UpdateCheck, String>)
    requires
        -1_000_000_000_000_000_000_000_000_000 <= now_utc_nanos <= 1_000_000_000_000_000_000_000_000_000,
    ensures
        match check_decision(match last_checked { Some(c) => Some(c@), None => None }, now_utc_nanos, interval_days) {
            Ok(d) => r == Ok::<UpdateCheck, String>(d),
            Err(m) => r matches Err(s) && s@ == m,
        },
{
    match last_checked {
        None => Ok(UpdateCheck::FirstCheck),
        Some(c) => {
            let t = trim(c);
            match parse_rfc3339_instant(t.as_str()) {
                Ok((secs, nanos)) => {
                    let last: i128 = secs as i128 * 1_000_000_000 + nanos as i128;
                    let elapsed: i128 = now_utc_nanos - last;
                    if elapsed > interval_days as i128 * 86_400_000_000_000 {
                        Ok(UpdateCheck::Due)
                    } else {
                        Ok(UpdateCheck::NotDue)
                    }
                },
                Err(m) => Err(m),
            }
        },
    }
}

/// A semantic version (`semver::Version`).
#[verifier::external_type_specification]
#[verifier::external_body]
pub struct ExVersion(semver::Version);

/// Whether `text` is a semantic version (`semver::Version::parse` accepts it).
pub uninterp spec fn semver_valid(text: Seq<char>) -> bool;

/// Whether the version written `a` is greater than the one written `b` in
/// semver's total order: precedence (major, minor, patch, pre-release),
/// then build metadata, which precedence alone ignores.
pub uninterp spec fn semver_greater(a: Seq<char>, b: Seq<char>) -> bool;

/// Whether the version written `text` has a pre-release part.
pub uninterp spec fn semver_pre_release(text: Seq<char>) -> bool;

/// A version together with the text it was parsed from.
pub struct ParsedVersion {
    text: String,
    version: semver::Version,
}

impl View for ParsedVersion {
    type V = Seq<char>;

    /// The text the version was parsed from.
    closed spec fn view(&self) -> Seq<char> {
        self.text@
    }
}

/// `semver::Version::parse`. The contract names which texts parse.
#[verifier::external_body]
fn parse_semver(text: &str) -> (r: Option<semver::Version>)
    ensures
        r is Some == semver_valid(text@),
{
    semver::Version::parse(text).ok()
}

/// `>` on two parsed versions (semver's derived `Ord`, which orders by
/// precedence and then by build metadata). The contract names the
/// comparison of the texts they were parsed from.
#[verifier::external_body]
fn version_greater(a: &ParsedVersion, b: &ParsedVersion) -> (r: bool)
    ensures
        r == semver_greater(a@, b@),
{
    a.version > b.version
}

/// Whether a parsed version's pre-release part (`Version::pre`) is not
/// empty. The contract names the answer for the text it was parsed from.
#[verifier::external_body]
fn has_pre_release(v: &ParsedVersion) -> (r: bool)
    ensures
        r == semver_pre_release(v@),
{
    !v.version.pre.is_empty()
}

impl ParsedVersion {
    /// Parses a semantic version.
    pub fn parse(text: &str) -> (r: Option<ParsedVersion>)
        ensures
            r is Some == semver_valid(text@),
            r matches Some(v) ==> v@ == text@,
    {
        match parse_semver(text) {
            Some(version) => Some(ParsedVersion { text: owned(text), version }),
            None => None,
        }
    }

    /// The text the version was parsed from.
    pub fn as_str(&self) -> (r: &str)
        ensures
            r@ == self@,
    {
        self.text.as_str()
    }
}

/// The version in a release tag, without its leading `v`s.
pub open spec fn tag_version_text(tag: Seq<char>) -> Seq<char> {
    tag.skip(leading_vs(tag) as int)
}

/// How many `v`s a text starts with.
pub open spec fn leading_vs(s: Seq<char>) -> nat
    decreases s.len(),
{
    if s.len() > 0 && s[0] == 'v' {
        1 + leading_vs(s.drop_first())
    } else {
        0
    }
}

/// Parses the latest release's version from its tag: every leading `v` is
/// dropped (`trim_start_matches('v')`) and the rest parsed as a semantic
/// version.
pub fn parse_latest_version(tag_name: &str) -> (r: Result<ParsedVersion, String>)
    ensures
        semver_valid(tag_version_text(tag_name@)) ==> (r matches Ok(v) && v@ == tag_version_text(tag_name@)),
        !semver_valid(tag_version_text(tag_name@)) ==> (r matches Err(m) && m@ == "Failed to parse latest version"@),
{
    let n = tag_name.unicode_len();
    let mut i: usize = 0;
    assert(tag_name@.skip(0) =~= tag_name@);
    while i < n && tag_name.get_char(i) == 'v'
        invariant
            i <= n,
            n == tag_name@.len(),
            leading_vs(tag_name@) == i + leading_vs(tag_name@.skip(i as int)),
        decreases n - i,
    {
        assert(tag_name@.skip(i as int).drop_first() =~= tag_name@.skip(i + 1));
        i = i + 1;
    }
    assert(leading_vs(tag_name@.skip(i as int)) == 0);
    let rest = tag_name.substring_char(i, n);
    assert(rest@ =~= tag_version_text(tag_name@));
    match ParsedVersion::parse(rest) {
        Some(v) => Ok(v),
        None => Err(owned("Failed to parse latest version")),
    }
}

/// What to do about the latest release.
#[derive(Debug, Clone, Copy, PartialEq, Eq, Structural)]
pub enum ReleaseAction {
    /// Already on the latest version.
    UpToDate,
    /// A newer pre-release exists but pre-releases are not allowed.
    SkipPreRelease,
    /// Download and install the newer release.
    Install,
}

/// The action for the latest release given the running version: install a
/// newer one, unless it is a pre-release and those are not allowed.
pub open spec fn release_action_of(latest: Seq<char>, current: Seq<char>, allow_pre_release: bool) -> ReleaseAction {
    if semver_greater(latest, current) {
        if semver_pre_release(latest) && !allow_pre_release {
            ReleaseAction::SkipPreRelease
        } else {
            ReleaseAction::Install
        }
    } else {
        ReleaseAction::UpToDate
    }
}

/// A release is installed only when it is newer than the running version,
/// and a pre-release only when pre-releases are allowed; a release that is
/// not newer leaves the running version in place.
pub proof fn lemma_release_action_installs_only_newer(latest: Seq<char>, current: Seq<char>, allow_pre_release: bool)
    ensures
        release_action_of(latest, current, allow_pre_release) == ReleaseAction::Install
            ==> semver_greater(latest, current) && (allow_pre_release || !semver_pre_release(latest)),
        release_action_of(latest, current, allow_pre_release) == ReleaseAction::SkipPreRelease
            ==> semver_greater(latest, current) && semver_pre_release(latest) && !allow_pre_release,
        !semver_greater(latest, current) ==> release_action_of(latest, current, allow_pre_release) == ReleaseAction::UpToDate,
        semver_greater(latest, current) && (allow_pre_release || !semver_pre_release(latest))
            ==> release_action_of(latest, current, allow_pre_release) == ReleaseAction::Install,
{
}

/// Decides what to do about the latest release.
pub fn release_action(latest: &ParsedVersion, current: &ParsedVersion, allow_pre_release: bool) -> (r: ReleaseAction)
    ensures
        r == release_action_of(latest@, current@, allow_pre_release),
        r == ReleaseAction::Install ==> semver_greater(latest@, current@),
        !semver_greater(latest@, current@) ==> r == ReleaseAction::UpToDate,
{
    if version_greater(latest, current) {
        if has_pre_release(latest) && !allow_pre_release {
            ReleaseAction::SkipPreRelease
        } else {
            ReleaseAction::Install
        }
    } else {
        ReleaseAction::UpToDate
    }
}

} // verus!
