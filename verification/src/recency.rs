//! Whether a timestamp of the API lies within the last seven days.

use vstd::prelude::*;
use std::time::{Duration, SystemTime};

verus! {

#[verifier::external_type_specification]
#[verifier::external_body]
pub struct ExSystemTime(SystemTime);

/// Names the instant that chrono's RFC 3339 parser reads in `text`, as whole
/// seconds since the Unix epoch; `None` where the parser rejects `text`.
pub uninterp spec fn rfc3339_unix_seconds(text: Seq<char>) -> Option<i64>;

/// Calls `chrono::DateTime::parse_from_rfc3339` on `text` and, where it
/// succeeds, `DateTime::timestamp` on the result. The contract claims that
/// the outcome is `rfc3339_unix_seconds(text)`: a function of the text alone.
#[verifier::external_body]
fn parse_rfc3339_seconds(text: &str) -> (res: Option<i64>)
    ensures
        res == rfc3339_unix_seconds(text@),
{
    match chrono::DateTime::parse_from_rfc3339(text) {
        Ok(instant) => Some(instant.timestamp()),
        Err(_) => None,
    }
}

/// Names the instant that chrono's `DateTime::parse_from_str` reads in
/// `text` under the format `format`, as whole seconds since the Unix epoch;
/// `None` where the parser rejects `text`.
pub uninterp spec fn formatted_unix_seconds(text: Seq<char>, format: Seq<char>) -> Option<i64>;

/// Calls `chrono::DateTime::parse_from_str` on `text` with `format` and,
/// where it succeeds, `DateTime::timestamp` on the result. The contract
/// claims that the outcome is `formatted_unix_seconds(text, format)`: a
/// function of the two texts alone.
#[verifier::external_body]
fn parse_formatted_seconds(text: &str, format: &str) -> (res: Option<i64>)
    ensures
        res == formatted_unix_seconds(text@, format@),
{
    match chrono::DateTime::parse_from_str(text, format) {
        Ok(instant) => Some(instant.timestamp()),
        Err(_) => None,
    }
}

/// Calls `std::time::SystemTime::now`. Nothing is claimed of the result.
#[verifier::external_body]
fn clock_now() -> SystemTime {
    SystemTime::now()
}

/// Calls `SystemTime::duration_since` with `UNIX_EPOCH`; `None` where the
/// time lies before the epoch. Nothing more is claimed.
#[verifier::external_body]
fn since_unix_epoch(t: &SystemTime) -> Option<Duration> {
    match t.duration_since(std::time::UNIX_EPOCH) {
        Ok(d) => Some(d),
        Err(_) => None,
    }
}

/// Calls `Duration::as_nanos`. Nothing is claimed of the result.
#[verifier::external_body]
fn duration_nanos(d: &Duration) -> u128 {
    d.as_nanos()
}

/// Seven days in nanoseconds.
pub open spec fn week_nanos() -> int {
    604_800_000_000_000
}

/// Whether an instant given in seconds since the epoch counts as recent at
/// `now` (nanoseconds since the epoch, `None` for a clock before the epoch):
/// a missing or non-positive instant counts as recent, as does any instant
/// when the clock lies before the epoch; otherwise it must lie no more than
/// seven days before `now`.
pub open spec fn recent_at(seconds: Option<i64>, now: Option<u128>) -> bool {
    match seconds {
        Some(t) => if t > 0 {
            match now {
                Some(n) => t * 1_000_000_000 + week_nanos() >= n,
                None => true,
            }
        } else {
            true
        },
        None => true,
    }
}

/// Whether the instant `seconds` counts as recent at `now`.
pub fn is_recent_at(seconds: Option<i64>, now: Option<u128>) -> (res: bool)
    ensures
        res == recent_at(seconds, now),
{
    match seconds {
        Some(t) => if t > 0 {
            match now {
                Some(n) => {
                    let t_nanos: u128 = (t as u128) * 1_000_000_000;
                    t_nanos + 604_800_000_000_000 >= n
                },
                None => true,
            }
        } else {
            true
        },
        None => true,
    }
}

/// The timestamp form that JIRA writes: RFC 3339 but for an offset without
/// a colon, as in `2025-10-12T17:25:10.216-0700`.
pub open spec fn jira_time_format() -> Seq<char> {
    "%Y-%m-%dT%H:%M:%S%.f%z"@
}

/// The instant of a timestamp, in seconds since the epoch: read as RFC 3339,
/// or else in JIRA's form; `None` where neither reads it.
pub open spec fn timestamp_seconds(text: Seq<char>) -> Option<i64> {
    match rfc3339_unix_seconds(text) {
        Some(t) => Some(t),
        None => formatted_unix_seconds(text, jira_time_format()),
    }
}

/// The instant of a timestamp, in seconds since the epoch.
pub fn timestamp_seconds_of(text: &str) -> (res: Option<i64>)
    ensures
        res == timestamp_seconds(text@),
{
    match parse_rfc3339_seconds(text) {
        Some(t) => Some(t),
        None => parse_formatted_seconds(text, "%Y-%m-%dT%H:%M:%S%.f%z"),
    }
}

/// Whether the timestamp `text` counts as recent at `now`; text that does
/// not parse counts as recent.
pub open spec fn text_recent_at(text: Seq<char>, now: Option<u128>) -> bool {
    recent_at(timestamp_seconds(text), now)
}

/// Whether the timestamp `text` counts as recent at `now`.
pub fn is_text_recent_at(text: &str, now: Option<u128>) -> (res: bool)
    ensures
        res == text_recent_at(text@, now),
{
    is_recent_at(timestamp_seconds_of(text), now)
}

/// The time of the system clock, in nanoseconds since the Unix epoch;
/// `None` where the clock lies before the epoch.
pub(crate) fn unix_now_nanos() -> Option<u128> {
    let now = clock_now();
    match since_unix_epoch(&now) {
        Some(d) => Some(duration_nanos(&d)),
        None => None,
    }
}

/// Whether the timestamp lies within the seven days before the current
/// time; a timestamp that does not parse, or lies at or before the epoch,
/// counts as recent.
pub fn is_within_last_week(datetime_str: &str) -> (res: bool)
    ensures
        exists|now: Option<u128>| res == #[trigger] text_recent_at(datetime_str@, now),
        !(timestamp_seconds(datetime_str@) matches Some(t) && t > 0) ==> res,
{
    let now = unix_now_nanos();
    let res = is_text_recent_at(datetime_str, now);
    assert(res == text_recent_at(datetime_str@, now));
    res
}

} // verus!
