//! Flags queries whose running time reaches a threshold.
use vstd::prelude::*;

use crate::time::Duration;

verus! {

/// Threshold, in milliseconds, above which a query is considered slow.
pub const SLOW_QUERY_THRESHOLD_MS: u64 = 200;

/// Decides which queries are slow, by a fixed threshold.
pub struct SlowQueryLogger {
    threshold: Duration,
}

impl SlowQueryLogger {
    /// The threshold of this logger, in nanoseconds.
    pub closed spec fn threshold_nanos(&self) -> nat {
        self.threshold.total_nanos()
    }

    /// A logger with the default threshold of 200 ms.
    pub fn new() -> (l: SlowQueryLogger)
        ensures
            l.threshold_nanos() == SLOW_QUERY_THRESHOLD_MS * 1_000_000,
    {
        SlowQueryLogger { threshold: Duration::from_millis(SLOW_QUERY_THRESHOLD_MS) }
    }

    /// A logger with the given threshold.
    pub fn with_threshold(threshold: Duration) -> (l: SlowQueryLogger)
        ensures
            l.threshold_nanos() == threshold.total_nanos(),
    {
        SlowQueryLogger { threshold }
    }

    /// The threshold of this logger.
    pub fn threshold(&self) -> (d: &Duration)
        ensures
            d.total_nanos() == self.threshold_nanos(),
    {
        &self.threshold
    }

    /// Whether a run of `query` that took `duration` is slow: its duration
    /// exceeds the threshold. The caller reports the slow ones.
    pub fn check(&self, query: &str, duration: Duration) -> (slow: bool)
        ensures
            slow == (duration.total_nanos() > self.threshold_nanos()),
    {
        !self.threshold.is_at_least(&duration)
    }
}

/// A run at least as long as a slow run is slow too, and a run at least as
/// short as a fast run is fast too.
pub proof fn lemma_slowness_is_monotone(logger: SlowQueryLogger, a: Duration, b: Duration)
    requires
        a.total_nanos() <= b.total_nanos(),
    ensures
        a.total_nanos() > logger.threshold_nanos() ==> b.total_nanos() > logger.threshold_nanos(),
        b.total_nanos() <= logger.threshold_nanos() ==> a.total_nanos() <= logger.threshold_nanos(),
{
}

impl Default for SlowQueryLogger {
    fn default() -> (l: SlowQueryLogger)
        ensures
            l.threshold_nanos() == SLOW_QUERY_THRESHOLD_MS * 1_000_000,
    {
        SlowQueryLogger::new()
    }
}

} // verus!
