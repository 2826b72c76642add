use chrono::{DateTime, Utc};
use vstd::prelude::*;

verus! {

/// How long a session stays valid after it was last (re)issued, in seconds.
pub const SESSION_TIMEOUT: i64 = 24 * 60 * 60;

/// An instant in UTC: whole seconds since the Unix epoch and the
/// nanoseconds past that second.
#[derive(Debug, Clone, Copy, PartialEq, Eq)]
pub struct UtcTime {
    pub secs: i64,
    pub nanos: u32,
}

impl UtcTime {
    /// The instant as nanoseconds since the Unix epoch.
    pub open spec fn total_nanos(self) -> int {
        self.secs * 1_000_000_000 + self.nanos
    }
}

/// `now` lies more than [`SESSION_TIMEOUT`] after `then`.
pub open spec fn later_than_timeout(then: UtcTime, now: UtcTime) -> bool {
    now.total_nanos() - then.total_nanos() > SESSION_TIMEOUT * 1_000_000_000
}

/// Whether `now` lies more than [`SESSION_TIMEOUT`] after `then`.
pub fn timed_out(then: UtcTime, now: UtcTime) -> (r: bool)
    ensures
        r == later_than_timeout(then, now),
{
    let a: i128 = then.secs as i128 * 1_000_000_000 + then.nanos as i128;
    let b: i128 = now.secs as i128 * 1_000_000_000 + now.nanos as i128;
    b - a > SESSION_TIMEOUT as i128 * 1_000_000_000
}

/// Earliest second chrono can represent: the start of `NaiveDate::MIN`,
/// January 1 of the year -262143.
pub const CHRONO_MIN_SECS: i64 = -8_334_601_228_800;

/// Latest whole second chrono can represent: the last second of
/// `NaiveDate::MAX`, December 31 of the year 262142.
pub const CHRONO_MAX_SECS: i64 = 8_210_266_876_799;

/// Chrono can represent the instant `secs` whole seconds after the Unix
/// epoch: `DateTime::from_timestamp(secs, 0)` yields an instant exactly when
/// the day of `secs` lies between `NaiveDate::MIN` and `NaiveDate::MAX`.
pub open spec fn chrono_can_represent(secs: int) -> bool {
    CHRONO_MIN_SECS <= secs <= CHRONO_MAX_SECS
}

/// Relies on chrono's `Utc::now`, read back through `timestamp` and
/// `timestamp_subsec_nanos`: chrono builds the instant with
/// `DateTime::from_timestamp`, so its seconds are in chrono's range.
#[verifier::external_body]
pub(crate) fn utc_now() -> (r: UtcTime)
    ensures
        chrono_can_represent(r.secs as int),
{
    let now = Utc::now();
    UtcTime { secs: now.timestamp(), nanos: now.timestamp_subsec_nanos() }
}

/// Relies on chrono's `DateTime::from_timestamp(secs, 0)`: whether it yields
/// an instant at all.
#[verifier::external_body]
pub(crate) fn representable(secs: i64) -> (r: bool)
    ensures
        r == chrono_can_represent(secs as int),
{
    DateTime::from_timestamp(secs, 0).is_some()
}

/// Whether the instant `dt` lies more than [`SESSION_TIMEOUT`] in the past,
/// as read from the clock now.
pub fn session_timeout(dt: UtcTime) -> (r: bool)
    ensures
        exists|now: UtcTime| r == later_than_timeout(dt, now),
{
    let now = utc_now();
    timed_out(dt, now)
}

} // verus!
