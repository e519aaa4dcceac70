//! The wall clock, reduced to the plain values the library reads from it.

use chrono::Datelike;
use vstd::prelude::*;

verus! {

/// A calendar month of a given year, in UTC. Usage quotas are counted per
/// calendar month.
#[derive(Clone, Copy, Debug, PartialEq, Eq, Structural)]
pub struct CalendarMonth {
    pub year: i32,
    /// The month number, starting from 1.
    pub month: u32,
}

/// An instant, as whole seconds since the Unix epoch and the nanoseconds
/// that follow them.
#[derive(Clone, Copy, Debug, PartialEq, Eq, Structural)]
pub struct Timestamp {
    pub unix_seconds: i64,
    pub subsec_nanos: u32,
}

/// One reading of the wall clock: the instant, and the calendar month that
/// it falls in.
#[derive(Clone, Copy, Debug, PartialEq, Eq, Structural)]
pub struct ClockReading {
    pub month: CalendarMonth,
    pub instant: Timestamp,
}

/// Reads the system clock through `chrono::Utc::now` and hands back the year,
/// month, seconds and nanoseconds of that instant, each as `chrono` reports
/// them (`Datelike::year`, `Datelike::month`, `DateTime::timestamp`,
/// `DateTime::timestamp_subsec_nanos`).
///
/// Trusted: the body is not verified. The only claim made of the result is
/// the one `chrono` documents for `Datelike::month`: the month number lies
/// between 1 and 12. `chrono` panics when the system clock is set before
/// the Unix epoch.
#[verifier::external_body]
pub(crate) fn utc_now() -> (now: ClockReading)
    ensures
        1 <= now.month.month <= 12,
{
    let t = chrono::Utc::now();
    ClockReading {
        month: CalendarMonth { year: t.year(), month: t.month() },
        instant: Timestamp {
            unix_seconds: t.timestamp(),
            subsec_nanos: t.timestamp_subsec_nanos(),
        },
    }
}

} // verus!
