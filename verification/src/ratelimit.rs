//! Handling of HTTP responses on the fetch paths: which statuses are
//! parsed, which are skipped, and the diagnostic notice built when the
//! provider answers 429 with its rate-limit headers.

use vstd::prelude::*;

use crate::text::{dec_str_of, parse_i64, parse_i64_spec, u32_dec};

verus! {

/// How a log-fetch response is handled, decided by its HTTP status: a 200
/// is parsed, a 429 is skipped with rate-limit diagnostics, anything else
/// is skipped with a plain failure notice.
#[derive(Clone, Copy, Debug, PartialEq, Eq, Structural)]
pub enum LogFetchOutcome {
    Parse,
    RateLimited,
    Skip,
}

/// The outcome a log-fetch status maps to.
pub open spec fn log_fetch_outcome_of(status: u16) -> LogFetchOutcome {
    if status == 200 {
        LogFetchOutcome::Parse
    } else if status == 429 {
        LogFetchOutcome::RateLimited
    } else {
        LogFetchOutcome::Skip
    }
}

/// Decide how a log-fetch response of the given HTTP status is handled.
pub fn classify_log_fetch(status: u16) -> (r: LogFetchOutcome)
    ensures
        r == log_fetch_outcome_of(status),
{
    if status == 200 {
        LogFetchOutcome::Parse
    } else if status == 429 {
        LogFetchOutcome::RateLimited
    } else {
        LogFetchOutcome::Skip
    }
}

/// Is a user-page response of the given HTTP status parsed? Any other
/// status ends the pagination as if the page were empty.
pub fn page_fetch_parses(status: u16) -> (r: bool)
    ensures
        r == (status == 200),
{
    status == 200
}

/// The three rate-limit headers of a 429 response, as raw header values.
#[derive(Clone, Debug, PartialEq)]
pub struct RateLimitHeaders {
    pub limit: String,
    pub remaining: String,
    pub reset: String,
}

/// The signed distance from `now` to the reset time, made non-positive the
/// way the diagnostic renders it, and clamped to the range the duration
/// formatter accepts.
pub open spec fn notice_seconds(reset: int, now: int) -> int {
    let d = reset - now;
    let m = if d > 0 {
        -d
    } else {
        d
    };
    if m < -9_223_372_036_854_775 {
        -9_223_372_036_854_775
    } else {
        m
    }
}

/// Compute [`notice_seconds`] for two epoch-second readings.
pub fn seconds_until_reset(reset: i64, now: i64) -> (r: i64)
    ensures
        r as int == notice_seconds(reset as int, now as int),
        -9_223_372_036_854_775 <= r <= 0,
{
    let d: i128 = reset as i128 - now as i128;
    let m: i128 = if d > 0 {
        -d
    } else {
        d
    };
    let c: i128 = if m < -9_223_372_036_854_775i128 {
        -9_223_372_036_854_775i128
    } else {
        m
    };
    c as i64
}

/// The English rendering of a duration of `secs` seconds.
pub uninterp spec fn human_duration_of(secs: int) -> Seq<char>;

/// Relies on `chrono_humanize::HumanTime`'s `Display` (reached through
/// `to_string`), which renders a duration in English from the duration
/// alone; `chrono::TimeDelta::seconds` converts the argument and panics
/// outside roughly plus or minus 9.2e15 seconds, which the bound excludes.
#[verifier::external_body]
fn humanize_seconds(secs: i64) -> (r: String)
    requires
        -9_223_372_036_854_775 <= secs <= 9_223_372_036_854_775,
    ensures
        r@ == human_duration_of(secs as int),
{
    chrono_humanize::HumanTime::from(chrono::Duration::seconds(secs)).to_string()
}

/// Relies on `chrono::Utc::now` for the current wall clock, reduced to
/// whole seconds since the Unix epoch; nothing is promised of the value.
#[verifier::external_body]
fn now_epoch_seconds() -> i64 {
    chrono::Utc::now().timestamp()
}

/// The diagnostic line logged when a log fetch is rate limited: the raw
/// limit and remaining header values, and how long until the reset.
pub open spec fn rate_limit_notice_of(
    limit: Seq<char>,
    remaining: Seq<char>,
    reset: int,
    now: int,
) -> Seq<char> {
    "getting auth0 user logs failed because of rate limit: "@ + limit + ", remaining: "@
        + remaining + ", reset: "@ + human_duration_of(notice_seconds(reset, now))
}

/// Build the rate-limit diagnostic for a 429 response, against the given
/// clock reading. Succeeds exactly when the reset header parses as a
/// number; headers that do not parse yield `None` rather than a notice.
pub fn rate_limit_notice(h: &RateLimitHeaders, now: i64) -> (r: Option<String>)
    ensures
        r is Some <==> parse_i64_spec(h.reset@) is Some,
        r matches Some(msg) ==> msg@ == rate_limit_notice_of(
            h.limit@,
            h.remaining@,
            parse_i64_spec(h.reset@)->0 as int,
            now as int,
        ),
{
    let reset = match parse_i64(h.reset.as_str()) {
        Some(v) => v,
        None => {
            return None;
        },
    };
    let secs = seconds_until_reset(reset, now);
    let human = humanize_seconds(secs);
    let mut msg = "getting auth0 user logs failed because of rate limit: ".to_owned();
    msg.append(h.limit.as_str());
    msg.append(", remaining: ");
    msg.append(h.remaining.as_str());
    msg.append(", reset: ");
    msg.append(human.as_str());
    proof {
        assert(msg@ =~= rate_limit_notice_of(
            h.limit@,
            h.remaining@,
            parse_i64_spec(h.reset@)->0 as int,
            now as int,
        ));
    }
    Some(msg)
}

/// Build the rate-limit diagnostic against the clock of this very moment.
/// Whatever the clock read, the notice renders the headers as
/// [`rate_limit_notice_of`] says, for that reading.
pub fn rate_limit_notice_now(h: &RateLimitHeaders) -> (r: Option<String>)
    ensures
        r is Some <==> parse_i64_spec(h.reset@) is Some,
        r matches Some(msg) ==> exists|now: int|
            msg@ == rate_limit_notice_of(
                h.limit@,
                h.remaining@,
                parse_i64_spec(h.reset@)->0 as int,
                now,
            ),
{
    let now = now_epoch_seconds();
    let r = rate_limit_notice(h, now);
    proof {
        if r is Some {
            assert(r->0@ == rate_limit_notice_of(
                h.limit@,
                h.remaining@,
                parse_i64_spec(h.reset@)->0 as int,
                now as int,
            ));
        }
    }
    r
}

/// The failure line logged when a log fetch comes back with an unexpected
/// status.
pub open spec fn log_fetch_failure_of(status: u16, body: Seq<char>) -> Seq<char> {
    "getting auth0 user logs failed, status: "@ + dec_str_of(status as int) + " | resp: "@ + body
}

/// Build the failure line for an unexpected log-fetch status.
pub fn log_fetch_failure_message(status: u16, body: &str) -> (r: String)
    ensures
        r@ == log_fetch_failure_of(status, body@),
{
    let mut msg = "getting auth0 user logs failed, status: ".to_owned();
    msg.append(u32_dec(status as u32).as_str());
    msg.append(" | resp: ");
    msg.append(body);
    proof {
        assert(msg@ =~= log_fetch_failure_of(status, body@));
    }
    msg
}

/// The failure line logged when a user-page fetch comes back with an
/// unexpected status.
pub open spec fn page_fetch_failure_of(status: u16, body: Seq<char>) -> Seq<char> {
    "getting auth0 users failed, status: "@ + dec_str_of(status as int) + " | resp: "@ + body
}

/// Build the failure line for an unexpected user-page status.
pub fn page_fetch_failure_message(status: u16, body: &str) -> (r: String)
    ensures
        r@ == page_fetch_failure_of(status, body@),
{
    let mut msg = "getting auth0 users failed, status: ".to_owned();
    msg.append(u32_dec(status as u32).as_str());
    msg.append(" | resp: ");
    msg.append(body);
    proof {
        assert(msg@ =~= page_fetch_failure_of(status, body@));
    }
    msg
}

} // verus!
