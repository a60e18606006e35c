//! Capture instants, held as plain values so that the accumulation logic can
//! be driven by any clock, including a fixed one.
use vstd::prelude::*;

verus! {

/// An instant at which a snapshot was taken: nanoseconds since the Unix epoch
/// and the number of the local calendar day it falls on.
#[derive(Clone, Copy, Debug, PartialEq, Eq, Structural)]
pub struct CaptureTime {
    pub unix_nanos: i64,
    pub local_day: i32,
}

/// Relies on chrono's Local time zone (TimeZone::timestamp_nanos, then
/// Datelike::num_days_from_ce on the local date): the number of the local
/// calendar day on which the instant falls. It depends on the machine's time
/// zone, so nothing is stated of it.
#[verifier::external_body]
fn local_day_number(unix_nanos: i64) -> (r: i32) {
    chrono::Datelike::num_days_from_ce(
        &chrono::TimeZone::timestamp_nanos(&chrono::Local, unix_nanos).date_naive(),
    )
}

impl CaptureTime {
    /// The instant `unix_nanos`, with its local calendar day.
    pub fn at(unix_nanos: i64) -> (r: CaptureTime)
        ensures
            r.unix_nanos == unix_nanos,
    {
        CaptureTime { unix_nanos, local_day: local_day_number(unix_nanos) }
    }

    /// Whether two instants fall on the same local calendar day.
    pub open spec fn spec_same_day(self, other: CaptureTime) -> bool {
        self.local_day == other.local_day
    }

    pub fn same_day(&self, other: &CaptureTime) -> (r: bool)
        ensures
            r == self.spec_same_day(*other),
    {
        self.local_day == other.local_day
    }
}

/// Nanoseconds from `prev` to `now`, or zero where the clock went backwards.
pub open spec fn spec_elapsed_ns(prev: CaptureTime, now: CaptureTime) -> int {
    if now.unix_nanos >= prev.unix_nanos {
        now.unix_nanos - prev.unix_nanos
    } else {
        0
    }
}

/// Nanoseconds elapsed from `prev` to `now`, never negative: a clock that went
/// backwards counts as no time at all.
pub fn elapsed_ns(prev: CaptureTime, now: CaptureTime) -> (r: u64)
    ensures
        r == spec_elapsed_ns(prev, now),
{
    if now.unix_nanos >= prev.unix_nanos {
        (now.unix_nanos as i128 - prev.unix_nanos as i128) as u64
    } else {
        0
    }
}

} // verus!
