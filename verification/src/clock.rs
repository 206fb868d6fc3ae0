//! Time as the generator sees it: points in time, the time unit of 10 ms,
//! and the wall clock.

use chrono::Utc;
use vstd::prelude::*;

verus! {

/// The time unit of an id, in nanoseconds: 10 msec.
pub const FLAKE_TIME_UNIT: i64 = 10_000_000;

/// The largest number of time units that a point in time can lie from the
/// Unix epoch, in either direction.
pub const MAX_TIME_UNITS: i64 = 922_337_203_685;

/// A point in time: the nanoseconds, leap seconds not counted, from
/// 1970-01-01 00:00:00 UTC to it. Before that date the number is negative.
#[derive(Copy, Clone, Debug, PartialEq, Eq)]
pub struct Timestamp {
    pub nanos: i64,
}

/// How long to pause: `secs` whole seconds and `nanos` nanoseconds more.
#[derive(Copy, Clone, Debug, PartialEq, Eq)]
pub struct Pause {
    pub secs: u64,
    pub nanos: u32,
}

impl Pause {
    /// The whole pause in nanoseconds.
    pub open spec fn total_nanos(self) -> int {
        self.secs * 1_000_000_000 + self.nanos
    }
}

/// The whole time units in a number of nanoseconds, rounded towards zero.
pub open spec fn units_of(nanos: int) -> int {
    if nanos >= 0 {
        nanos / 10_000_000
    } else {
        -((-nanos) / 10_000_000)
    }
}

/// What is left of a number of nanoseconds beside its whole time units. It
/// has the sign of `nanos`.
pub open spec fn remainder_of(nanos: int) -> int {
    nanos - units_of(nanos) * 10_000_000
}

/// The time units from a start time, itself in time units, to the point in
/// time `now_nanos`.
pub open spec fn elapsed_units(now_nanos: int, start_time: int) -> int {
    units_of(now_nanos) - start_time
}

/// The nanoseconds to pause at `now_nanos` when the generator is `overtime`
/// time units ahead of the clock: up to the start of the time unit that lies
/// `overtime` units after the one that `now_nanos` is in. Nothing, if the
/// generator is not ahead.
pub open spec fn pause_nanos(overtime: int, now_nanos: int) -> int {
    if overtime >= 1 {
        overtime * 10_000_000 - remainder_of(now_nanos)
    } else {
        0
    }
}

/// Reads the wall clock with `chrono::Utc::now` and hands the reading on as
/// `chrono::DateTime::timestamp_nanos_opt` counts it: the nanoseconds since
/// the Unix epoch, or `None` where that count does not fit 64 bits (after the
/// year 2262). Nothing is claimed of the value: it is whatever the system
/// clock says. `Utc::now` does not return on a system clock that is set
/// before 1970.
#[verifier::external_body]
fn utc_now_nanos() -> (nanos: Option<i64>) {
    Utc::now().timestamp_nanos_opt()
}

impl Timestamp {
    /// The point in time of a clock reading in nanoseconds. A reading that
    /// does not fit 64 bits, which is `None`, counts as the last point in
    /// time that a `Timestamp` can hold.
    pub fn from_reading(reading: Option<i64>) -> (time: Self)
        ensures
            time.nanos == match reading {
                Some(nanos) => nanos,
                None => i64::MAX,
            },
    {
        match reading {
            Some(nanos) => Timestamp { nanos },
            None => Timestamp { nanos: i64::MAX },
        }
    }

    /// The point in time that the wall clock shows: `from_reading` of
    /// whatever the clock reads.
    pub fn now() -> (now: Self) {
        Timestamp::from_reading(utc_now_nanos())
    }
}

/// The time units from the Unix epoch to `time`, rounded towards zero.
pub fn to_sonyflake_time(time: Timestamp) -> (units: i64)
    ensures
        units == units_of(time.nanos as int),
        -MAX_TIME_UNITS <= units <= MAX_TIME_UNITS,
{
    time.nanos / FLAKE_TIME_UNIT
}

/// The time units from `start_time` to `now`. The difference has to fit 64
/// bits.
pub fn current_elapsed_time_at(start_time: i64, now: Timestamp) -> (current: i64)
    requires
        i64::MIN <= elapsed_units(now.nanos as int, start_time as int) <= i64::MAX,
    ensures
        current == elapsed_units(now.nanos as int, start_time as int),
{
    to_sonyflake_time(now) - start_time
}

/// The time units from `start_time` to the wall clock's reading: for some
/// reading, what `current_elapsed_time_at` returns. The difference has to
/// fit 64 bits whatever the clock reads.
pub fn current_elapsed_time(start_time: i64) -> (current: i64)
    requires
        MAX_TIME_UNITS - i64::MAX <= start_time <= i64::MAX - MAX_TIME_UNITS,
    ensures
        exists|now: Timestamp| current == elapsed_units(now.nanos as int, start_time as int),
{
    let now = Timestamp::now();
    current_elapsed_time_at(start_time, now)
}

/// How long a caller pauses at `now` to let the clock catch up with a
/// generator that is `overtime` time units ahead of it.
pub fn sleep_time_at(overtime: i64, now: Timestamp) -> (pause: Pause)
    ensures
        pause.total_nanos() == pause_nanos(overtime as int, now.nanos as int),
        pause.nanos < 1_000_000_000,
{
    if overtime < 1 {
        return Pause { secs: 0, nanos: 0 };
    }
    let rest: i64 = now.nanos % FLAKE_TIME_UNIT;
    let total: i128 = (overtime as i128) * 10_000_000i128 - (rest as i128);
    let secs: i128 = total / 1_000_000_000i128;
    let nanos: i128 = total % 1_000_000_000i128;
    Pause { secs: secs as u64, nanos: nanos as u32 }
}

/// How long a caller pauses now: for some reading of the wall clock, what
/// `sleep_time_at` returns.
pub fn sleep_time(overtime: i64) -> (pause: Pause)
    ensures
        exists|now: Timestamp|
            pause.total_nanos() == pause_nanos(overtime as int, now.nanos as int),
        pause.nanos < 1_000_000_000,
        overtime < 1 ==> pause.total_nanos() == 0,
        overtime >= 1 ==> (overtime - 1) * FLAKE_TIME_UNIT < pause.total_nanos() < (overtime + 1)
            * FLAKE_TIME_UNIT,
{
    let now = Timestamp::now();
    sleep_time_at(overtime, now)
}

/// A pause ends where the next time unit begins: a clock that shows
/// `now_nanos` before the pause shows the very start of the time unit that
/// lies `overtime` units further on after it. From 1970 on the pause is
/// longer than `overtime - 1` time units and not longer than `overtime`.
pub proof fn lemma_pause_ends_at_the_time_unit(overtime: int, now_nanos: int)
    requires
        overtime >= 1,
    ensures
        units_of(now_nanos + pause_nanos(overtime, now_nanos)) == units_of(now_nanos) + overtime,
        remainder_of(now_nanos + pause_nanos(overtime, now_nanos)) == 0,
        now_nanos >= 0 ==> (overtime - 1) * FLAKE_TIME_UNIT < pause_nanos(overtime, now_nanos)
            <= overtime * FLAKE_TIME_UNIT,
{
}

} // verus!
