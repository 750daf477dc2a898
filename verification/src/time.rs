//! Instants and durations as plain values.

use vstd::prelude::*;
use chrono::{DateTime, Datelike, Local};

verus! {

/// Number of nanoseconds in one second.
pub const NANOS_PER_SECOND: u32 = 1_000_000_000;

/// Earliest instant chrono can hold, in seconds since the Unix epoch:
/// midnight of the first day of year -262143.
pub const MIN_SECONDS: i64 = -8_334_601_228_800;

/// Latest instant chrono can hold, in seconds since the Unix epoch:
/// the last second of year 262142.
pub const MAX_SECONDS: i64 = 8_210_266_876_799;

/// An instant on the wall clock, together with the calendar day it fell on
/// in the time zone in which it was read.
#[derive(Clone, Copy, Debug, PartialEq, Eq, Structural)]
pub struct Timestamp {
    /// Calendar year of the local date.
    pub year: i32,
    /// Day of the year of the local date, counted from 1.
    pub ordinal: u32,
    /// Whole seconds since the Unix epoch.
    pub seconds: i64,
    /// Nanoseconds since the last whole second.
    pub nanos: u32,
}

impl Timestamp {
    /// The values chrono can hold as an instant outside a leap second.
    pub open spec fn wf(&self) -> bool {
        &&& 1 <= self.ordinal <= 366
        &&& MIN_SECONDS <= self.seconds <= MAX_SECONDS
        &&& self.nanos < NANOS_PER_SECOND
    }

    /// Nanoseconds since the Unix epoch.
    pub open spec fn total_nanos(&self) -> int {
        self.seconds * NANOS_PER_SECOND + self.nanos
    }

    /// Whether two instants fall on the same calendar day.
    pub open spec fn same_day(&self, other: &Timestamp) -> bool {
        self.year == other.year && self.ordinal == other.ordinal
    }

    /// Decides `wf`.
    pub fn is_valid(&self) -> (r: bool)
        ensures
            r == self.wf(),
    {
        1 <= self.ordinal && self.ordinal <= 366 && MIN_SECONDS <= self.seconds
            && self.seconds <= MAX_SECONDS && self.nanos < NANOS_PER_SECOND
    }

    /// Decides `same_day`.
    pub fn is_same_day(&self, other: &Timestamp) -> (r: bool)
        ensures
            r == self.same_day(other),
    {
        self.year == other.year && self.ordinal == other.ordinal
    }

    /// Reads the wall clock with `chrono::Local::now` and takes the year, the
    /// day of the year, the Unix seconds and the sub-second nanoseconds out of
    /// the result. Trusted: the clock's instant lies in chrono's range and
    /// outside a leap second, and chrono counts the day of the year from 1 to
    /// 366. Nothing is claimed about which instant comes back.
    #[verifier::external_body]
    pub(crate) fn now() -> (r: Timestamp)
        ensures
            r.wf(),
    {
        let t = Local::now();
        Timestamp {
            year: t.year(),
            ordinal: t.ordinal(),
            seconds: t.timestamp(),
            nanos: t.timestamp_subsec_nanos(),
        }
    }
}

/// A span of nanoseconds in whole seconds, the fraction dropped towards zero.
pub open spec fn whole_seconds(nanos: int) -> int {
    if nanos >= 0 {
        nanos / (NANOS_PER_SECOND as int)
    } else {
        -((-nanos) / (NANOS_PER_SECOND as int))
    }
}

/// Whole seconds from `start` to `end`; negative where `end` is the earlier.
pub open spec fn signed_seconds_between(start: &Timestamp, end: &Timestamp) -> int {
    whole_seconds(end.total_nanos() - start.total_nanos())
}

/// Whole seconds from `start` to `end`, none where `end` is the earlier.
pub open spec fn elapsed_seconds(start: &Timestamp, end: &Timestamp) -> nat {
    let s = signed_seconds_between(start, end);
    if s >= 0 { s as nat } else { 0 }
}

/// Rebuilds both instants with `chrono::DateTime::from_timestamp` and returns
/// `end.signed_duration_since(start).num_seconds()`. Trusted: for instants in
/// chrono's range and outside a leap second this is the difference of the two
/// in whole seconds, the fraction dropped towards zero.
#[verifier::external_body]
pub(crate) fn chrono_seconds_between(start: &Timestamp, end: &Timestamp) -> (r: i64)
    requires
        start.wf(),
        end.wf(),
    ensures
        r == signed_seconds_between(start, end),
{
    let a = DateTime::from_timestamp(start.seconds, start.nanos).unwrap();
    let b = DateTime::from_timestamp(end.seconds, end.nanos).unwrap();
    b.signed_duration_since(a).num_seconds()
}

/// Whole seconds that passed from `start` to `end`. A clock that was set back
/// in between gives zero.
pub fn seconds_between(start: &Timestamp, end: &Timestamp) -> (r: u64)
    requires
        start.wf(),
        end.wf(),
    ensures
        r == elapsed_seconds(start, end),
{
    let s: i64 = chrono_seconds_between(start, end);
    if s >= 0 {
        s as u64
    } else {
        0
    }
}

} // verus!
