//! Throughput accounting for a running search: when a progress report is
//! due, and the hash rate it shows.

use vstd::prelude::*;

verus! {

/// Milliseconds between two progress reports.
pub const REPORT_INTERVAL_MS: u64 = 1000;

/// Whether a report is due at `now_ms`, the last one having been made at
/// `last_report_ms`: at least a second has passed. A clock that went back is
/// not due.
pub fn report_due(last_report_ms: u64, now_ms: u64) -> (r: bool)
    ensures
        r == (now_ms >= last_report_ms && now_ms - last_report_ms >= REPORT_INTERVAL_MS),
{
    now_ms >= last_report_ms && now_ms - last_report_ms >= REPORT_INTERVAL_MS
}

/// Attempts per second, rounded down and capped at `u64::MAX`.
pub open spec fn rate_spec(attempts: u64, elapsed_ms: u64) -> u64 {
    let q = attempts * 1000 / elapsed_ms as int;
    if q > u64::MAX {
        u64::MAX
    } else {
        q as u64
    }
}

/// Attempts per second, rounded down (and capped at `u64::MAX`), after
/// `attempts` attempts in `elapsed_ms` milliseconds; none while no time has
/// passed.
pub fn hash_rate(attempts: u64, elapsed_ms: u64) -> (r: Option<u64>)
    ensures
        elapsed_ms == 0 ==> r is None,
        elapsed_ms > 0 ==> r == Some(rate_spec(attempts, elapsed_ms)),
{
    if elapsed_ms == 0 {
        return None;
    }
    let scaled: u128 = attempts as u128 * 1000;
    let rate: u128 = scaled / elapsed_ms as u128;
    if rate > u64::MAX as u128 {
        Some(u64::MAX)
    } else {
        Some(rate as u64)
    }
}

/// A snapshot of a running search: attempts made and time spent.
#[derive(Clone, Copy, Debug, PartialEq, Eq)]
pub struct Progress {
    /// Attempts completed.
    pub attempts: u64,
    /// Milliseconds since the search started.
    pub elapsed_ms: u64,
}

impl Progress {
    /// Attempts per second over the whole search so far.
    pub fn rate(&self) -> (r: Option<u64>)
        ensures
            self.elapsed_ms == 0 ==> r is None,
            self.elapsed_ms > 0 ==> r == Some(rate_spec(self.attempts, self.elapsed_ms)),
    {
        hash_rate(self.attempts, self.elapsed_ms)
    }
}

} // verus!
