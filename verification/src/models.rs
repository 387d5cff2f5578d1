//! The three linked entities of the tracker and the rules of their
//! lifecycle: assets own tickets, tickets own comments.

use std::fmt::Write;
use vstd::prelude::*;

pub mod asset;
pub mod comment;
pub mod ticket;

verus! {

/// A calendar date and time of day without a time zone, held as the seconds
/// since 1970-01-01 00:00:00 and the nanoseconds within that second. Two
/// times are ordered as the pairs of these numbers are.
#[derive(Clone, Copy, Debug, PartialEq, Eq, Structural)]
pub struct Timestamp {
    pub secs: i64,
    pub nanos: u32,
}

/// The pattern that dates are written with in notifications.
pub open spec fn day_pattern() -> Seq<char> {
    "%Y-%m-%d"@
}

/// What `chrono` writes for the time `secs`, `nanos` under a `strftime`
/// pattern; `None` where the numbers are no time or the pattern is malformed.
pub uninterp spec fn formatted_time(secs: int, nanos: int, pattern: Seq<char>) -> Option<Seq<char>>;

/// Formats a time with `chrono`: `DateTime::from_timestamp`, then
/// `NaiveDateTime::format` written into a string.
#[verifier::external_body]
fn format_time(secs: i64, nanos: u32, pattern: &str) -> (r: Option<String>)
    ensures
        r is Some <==> formatted_time(secs as int, nanos as int, pattern@) is Some,
        r matches Some(s) ==> formatted_time(secs as int, nanos as int, pattern@) == Some(s@),
{
    let time = chrono::DateTime::from_timestamp(secs, nanos)?.naive_utc();
    let mut out = String::new();
    write!(out, "{}", time.format(pattern)).ok()?;
    Some(out)
}

impl Timestamp {
    /// Whether `self` is strictly later than `other`.
    pub open spec fn later_than(self, other: Timestamp) -> bool {
        self.secs > other.secs || (self.secs == other.secs && self.nanos > other.nanos)
    }

    /// Whether `self` is strictly later than `other`.
    pub fn is_later_than(&self, other: &Timestamp) -> (b: bool)
        ensures
            b == self.later_than(*other),
    {
        self.secs > other.secs || (self.secs == other.secs && self.nanos > other.nanos)
    }

    /// The calendar day of this time, as `year-month-day`.
    pub open spec fn day_spec(self) -> Option<Seq<char>> {
        formatted_time(self.secs as int, self.nanos as int, day_pattern())
    }

    /// Writes the calendar day of this time as `year-month-day`; `None` where
    /// the numbers are out of the calendar's range.
    pub fn day(&self) -> (r: Option<String>)
        ensures
            r is Some <==> self.day_spec() is Some,
            r matches Some(s) ==> self.day_spec() == Some(s@),
    {
        format_time(self.secs, self.nanos, "%Y-%m-%d")
    }
}

} // verus!
