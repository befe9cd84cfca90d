//! Spans of time with nanosecond precision.

use vstd::prelude::*;

verus! {

/// Nanoseconds in one second.
pub const NANOS_PER_SEC: u32 = 1_000_000_000;

/// A non-negative span of time: a playback position, or a reading of a
/// monotonic clock. `nanos` counts below one second.
#[derive(Debug, Clone, Copy, PartialEq, Eq, Structural)]
pub struct TimeSpan {
    pub secs: u64,
    pub nanos: u32,
}

impl TimeSpan {
    /// The fraction is below one second.
    pub open spec fn wf(self) -> bool {
        self.nanos < NANOS_PER_SEC
    }

    /// The whole span in nanoseconds.
    pub open spec fn total_nanos(self) -> nat {
        (self.secs * 1_000_000_000 + self.nanos) as nat
    }

    /// The whole microseconds in the span.
    pub open spec fn total_micros(self) -> nat {
        self.total_nanos() / 1000
    }

    /// The whole microseconds in the span.
    pub fn as_micros(self) -> (r: u128)
        ensures
            r == self.total_micros(),
            r * 1000 <= self.secs * 1_000_000_000 + self.nanos < r * 1000 + 1000,
    {
        (self.secs as u128 * 1_000_000_000 + self.nanos as u128) / 1000
    }

    /// What is left of this span after `earlier`, and zero where `earlier` is
    /// the longer of the two.
    pub fn saturating_since(self, earlier: TimeSpan) -> (r: TimeSpan)
        requires
            self.wf(),
            earlier.wf(),
        ensures
            r.wf(),
            r.total_nanos() == if self.total_nanos() >= earlier.total_nanos() {
                self.total_nanos() - earlier.total_nanos()
            } else {
                0
            },
    {
        if self.secs < earlier.secs || (self.secs == earlier.secs && self.nanos < earlier.nanos) {
            TimeSpan { secs: 0, nanos: 0 }
        } else if self.nanos >= earlier.nanos {
            TimeSpan { secs: self.secs - earlier.secs, nanos: self.nanos - earlier.nanos }
        } else {
            TimeSpan {
                secs: self.secs - earlier.secs - 1,
                nanos: NANOS_PER_SEC - earlier.nanos + self.nanos,
            }
        }
    }
}

/// A span counts its seconds and nanoseconds: the empty span is nothing, one more
/// second is a thousand million nanoseconds more, and one more nanosecond is one
/// more.
pub proof fn law_span_counts_seconds_and_nanoseconds(secs: u64, nanos: u32)
    ensures
        (TimeSpan { secs: 0, nanos: 0 }).total_nanos() == 0,
        secs < u64::MAX ==> (TimeSpan { secs: (secs + 1) as u64, nanos }).total_nanos() == (
        TimeSpan { secs, nanos }).total_nanos() + 1_000_000_000,
        nanos < u32::MAX ==> (TimeSpan { secs, nanos: (nanos + 1) as u32 }).total_nanos() == (
        TimeSpan { secs, nanos }).total_nanos() + 1,
{
}

/// The whole microseconds of a span are less than one microsecond short of it.
pub proof fn law_whole_microseconds_fit_the_span(span: TimeSpan)
    ensures
        span.total_micros() * 1000 <= span.total_nanos() < span.total_micros() * 1000 + 1000,
{
}

} // verus!
