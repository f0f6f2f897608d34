//! Spans of time as plain values, and the clock.
use vstd::prelude::*;

verus! {

/// A span of time: whole seconds and the nanoseconds beyond them, as
/// `std::time::Duration` holds it.
#[derive(Clone, Copy, Debug)]
pub struct Duration {
    secs: u64,
    nanos: u32,
}

/// The number of nanoseconds in a second.
pub const NANOS_PER_SEC: u32 = 1_000_000_000;

impl Duration {
    #[verifier::type_invariant]
    spec fn subsec_in_range(self) -> bool {
        self.nanos < NANOS_PER_SEC
    }

    /// The span in nanoseconds.
    pub closed spec fn total_nanos(self) -> nat {
        (self.secs * 1_000_000_000 + self.nanos) as nat
    }

    /// A span of `secs` seconds and `nanos` nanoseconds; whole seconds in
    /// `nanos` carry over into the seconds, as `Duration::new` does.
    pub fn new(secs: u64, nanos: u32) -> (d: Duration)
        requires
            secs + nanos / 1_000_000_000 <= u64::MAX,
        ensures
            d.total_nanos() == secs * 1_000_000_000 + nanos,
    {
        let extra = nanos / NANOS_PER_SEC;
        let rest = nanos % NANOS_PER_SEC;
        Duration { secs: secs + extra as u64, nanos: rest }
    }

    /// A span of `secs` seconds.
    pub fn from_secs(secs: u64) -> (d: Duration)
        ensures
            d.total_nanos() == secs * 1_000_000_000,
    {
        Duration { secs, nanos: 0 }
    }

    /// A span of `millis` milliseconds.
    pub fn from_millis(millis: u64) -> (d: Duration)
        ensures
            d.total_nanos() == millis * 1_000_000,
    {
        let rest = millis % 1000;
        Duration { secs: millis / 1000, nanos: (rest * 1_000_000) as u32 }
    }

    /// A span of `micros` microseconds.
    pub fn from_micros(micros: u64) -> (d: Duration)
        ensures
            d.total_nanos() == micros * 1_000,
    {
        let rest = micros % 1_000_000;
        Duration { secs: micros / 1_000_000, nanos: (rest * 1_000) as u32 }
    }

    /// A span of `nanos` nanoseconds.
    pub fn from_nanos(nanos: u64) -> (d: Duration)
        ensures
            d.total_nanos() == nanos,
    {
        let rest = nanos % 1_000_000_000;
        Duration { secs: nanos / 1_000_000_000, nanos: rest as u32 }
    }

    /// The whole seconds of the span.
    pub fn as_secs(&self) -> (s: u64)
        ensures
            s == self.total_nanos() / 1_000_000_000,
    {
        proof {
            use_type_invariant(self);
        }
        self.secs
    }

    /// The nanoseconds of the span beyond its whole seconds.
    pub fn subsec_nanos(&self) -> (n: u32)
        ensures
            n == self.total_nanos() % 1_000_000_000,
    {
        proof {
            use_type_invariant(self);
        }
        self.nanos
    }

    /// The whole milliseconds of the span.
    pub fn as_millis(&self) -> (m: u128)
        ensures
            m == self.total_nanos() / 1_000_000,
    {
        proof {
            use_type_invariant(self);
        }
        self.secs as u128 * 1000 + (self.nanos / 1_000_000) as u128
    }

    /// The span in nanoseconds.
    pub fn as_nanos(&self) -> (n: u128)
        ensures
            n == self.total_nanos(),
    {
        self.secs as u128 * 1_000_000_000 + self.nanos as u128
    }

    /// Whether this span is at least as long as `other`.
    pub fn is_at_least(&self, other: &Duration) -> (b: bool)
        ensures
            b == (self.total_nanos() >= other.total_nanos()),
    {
        proof {
            use_type_invariant(self);
            use_type_invariant(other);
        }
        self.secs > other.secs || (self.secs == other.secs && self.nanos >= other.nanos)
    }

    /// Whether this span is shorter than `other`.
    pub fn is_shorter_than(&self, other: &Duration) -> (b: bool)
        ensures
            b == (self.total_nanos() < other.total_nanos()),
    {
        !self.is_at_least(other)
    }
}

/// A point in time of the process's monotonic clock.
#[verifier::external_type_specification]
#[verifier::external_body]
pub struct ExInstant(std::time::Instant);

/// Reads the monotonic clock with `std::time::Instant::now`. Nothing is
/// claimed of the value: it depends on the time of the call.
#[verifier::external_body]
pub(crate) fn instant_now() -> std::time::Instant {
    std::time::Instant::now()
}

/// The time passed since `start`, read with `std::time::Instant::elapsed` and
/// held as whole seconds and sub-second nanoseconds. Nothing is claimed of
/// the span: it depends on the time of the call.
#[verifier::external_body]
pub(crate) fn elapsed_since(start: &std::time::Instant) -> Duration {
    let span = start.elapsed();
    Duration { secs: span.as_secs(), nanos: span.subsec_nanos() }
}

} // verus!
