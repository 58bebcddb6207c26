use vstd::prelude::*;
use chrono::Datelike;
use crate::dates::{Date, valid_date};

verus! {

// The core consumes a wall-clock source: timestamps stamped onto rows, and
// the "today" reference the habit metrics are computed against.

/// Relies on chrono's `Utc::now` and `to_rfc3339`: the current instant as an
/// RFC 3339 timestamp.  Nothing can be promised of the clock's value.
#[verifier::external_body]
pub fn now_rfc3339() -> String {
    chrono::Utc::now().to_rfc3339()
}

/// Relies on chrono's `Utc::now` and `Datelike`: the current UTC calendar
/// date.  A host clock outside the store's representable years 0 through
/// 9999 is clamped to the nearest representable date, so the result is a
/// valid date for every clock outcome.
#[verifier::external_body]
pub fn today_utc() -> (r: Date)
    ensures
        valid_date(r),
{
    let now = chrono::Utc::now().date_naive();
    let year = now.year() as i64;
    if year < 0 {
        Date { year: 0, month: 1, day: 1 }
    } else if year > 9999 {
        Date { year: 9999, month: 12, day: 31 }
    } else {
        Date { year, month: now.month() as i64, day: now.day() as i64 }
    }
}

/// Relies on chrono's `Utc::now` and `timestamp`: seconds of the current
/// instant since the Unix epoch.  Nothing can be promised of the clock's
/// value.
#[verifier::external_body]
pub fn now_unix_seconds() -> i64 {
    chrono::Utc::now().timestamp()
}

/// The Unix second an RFC 3339 timestamp string denotes, when it parses;
/// a function of the string alone.
pub uninterp spec fn rfc3339_unix(s: Seq<char>) -> Option<int>;

/// Relies on chrono's `DateTime::parse_from_rfc3339` and `timestamp`: reads
/// an RFC 3339 timestamp back as Unix seconds, or nothing when the string
/// does not parse.
#[verifier::external_body]
pub fn parse_rfc3339_unix(s: &str) -> (r: Option<i64>)
    ensures
        match r {
            Some(v) => rfc3339_unix(s@) == Some(v as int),
            None => rfc3339_unix(s@) is None,
        },
{
    match chrono::DateTime::parse_from_rfc3339(s) {
        Ok(dt) => Some(dt.timestamp()),
        Err(_) => None,
    }
}

/// The elapsed seconds between two instants, floored at zero and saturating
/// at the largest representable value.
pub open spec fn spec_elapsed(now: int, ts: int) -> int {
    if now - ts <= 0 {
        0
    } else if now - ts > i64::MAX as int {
        i64::MAX as int
    } else {
        now - ts
    }
}

/// The difference of two drawn clock values, exactly as `spec_elapsed`.
pub fn elapsed_between(now: i64, ts: i64) -> (r: i64)
    ensures
        r as int == spec_elapsed(now as int, ts as int),
{
    match now.checked_sub(ts) {
        Some(d) => if d > 0 {
            d
        } else {
            0
        },
        None => {
            if ts < 0 {
                i64::MAX
            } else {
                0
            }
        },
    }
}

/// Whole seconds elapsed between a stored start timestamp and now, floored
/// at zero; a start timestamp that does not parse yields zero.  The two
/// drawn values (the parse result and the current instant) are combined by
/// the exact `elapsed_between`.
pub fn elapsed_since(started_at: &str) -> (r: i64)
    ensures
        r >= 0,
        rfc3339_unix(started_at@) is None ==> r == 0,
{
    match parse_rfc3339_unix(started_at) {
        Some(ts) => {
            let now = now_unix_seconds();
            elapsed_between(now, ts)
        },
        None => 0,
    }
}

} // verus!
