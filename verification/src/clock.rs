//! Points in time, as the service records them.

use vstd::prelude::*;

verus! {

/// A point in time: whole seconds since the Unix epoch (UTC) and the
/// nanoseconds past that second.
#[derive(Debug, Clone, Copy, PartialEq, Eq, Structural)]
pub struct Timestamp {
    pub secs: i64,
    pub nanos: u32,
}

/// Milliseconds since the Unix epoch of the time `secs`, `nanos`
/// (the whole milliseconds of the nanoseconds are added).
pub open spec fn epoch_millis(secs: int, nanos: int) -> int {
    secs * 1000 + nanos / 1_000_000
}

/// Calls `chrono::Utc::now()` and reads the result's `timestamp()` and
/// `timestamp_subsec_nanos()`. Trusted: chrono builds the value from the
/// system clock's duration since the Unix epoch, so the seconds are not
/// negative and the nanoseconds are below one second; chrono's dates end in
/// the year 262142, which bounds the seconds. Which time it is, is not stated.
#[verifier::external_body]
pub(crate) fn utc_now() -> (t: Timestamp)
    ensures
        0 <= t.secs <= 8_300_000_000_000,
        t.nanos < 1_000_000_000,
{
    let now = chrono::Utc::now();
    Timestamp { secs: now.timestamp(), nanos: now.timestamp_subsec_nanos() }
}

impl Timestamp {
    /// Milliseconds since the Unix epoch (as `timestamp_millis` counts them).
    pub fn millis(&self) -> (m: i64)
        requires
            i64::MIN <= self.secs * 1000,
            i64::MIN <= epoch_millis(self.secs as int, self.nanos as int) <= i64::MAX,
        ensures
            m == epoch_millis(self.secs as int, self.nanos as int),
    {
        self.secs * 1000 + (self.nanos / 1_000_000) as i64
    }
}

} // verus!
