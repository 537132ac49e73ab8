//! Dates and the clock. A date travels through the library as the Unix
//! timestamp of a moment of that day; parsing the `%Y-%m-%d` form and
//! reading the wall clock are chrono's work, behind trusted wrappers.

use vstd::prelude::*;
use crate::state::Clock;

verus! {

/// What chrono's `NaiveDate::parse_from_str(s, "%Y-%m-%d")` yields for `s`,
/// as the timestamp of that date's midnight: a function of the string alone.
pub uninterp spec fn date_value(s: Seq<char>) -> Option<i64>;

/// Relies on chrono's `NaiveDate::parse_from_str` with the `%Y-%m-%d`
/// format, whose result depends on the string alone. A parsed date is
/// carried as the Unix timestamp of its midnight (`and_hms_opt(0, 0, 0)`
/// is `Some` for every valid date, then `and_utc().timestamp()`).
#[verifier::external_body]
pub fn parse_date_timestamp(s: &str) -> (r: Option<i64>)
    ensures
        r == date_value(s@),
{
    match chrono::NaiveDate::parse_from_str(s, "%Y-%m-%d") {
        Ok(d) => match d.and_hms_opt(0, 0, 0) {
            Some(dt) => Some(dt.and_utc().timestamp()),
            None => None,
        },
        Err(_) => None,
    }
}

/// Relies on chrono's `Local::now`: the wall clock, which no contract can
/// pin. Returns the current moment as a timestamp, today's midnight, and
/// today's date written `%Y-%m-%d`.
#[verifier::external_body]
pub fn read_clock() -> (c: Clock) {
    let now = chrono::Local::now().naive_local();
    let midnight = now.date().and_hms_opt(0, 0, 0).unwrap();
    Clock {
        now: now.and_utc().timestamp(),
        today: midnight.and_utc().timestamp(),
        today_str: now.date().format("%Y-%m-%d").to_string(),
    }
}

} // verus!
