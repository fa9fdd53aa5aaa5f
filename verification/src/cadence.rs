//! The pacing decision of a driving loop.

use vstd::prelude::*;
use crate::time::{Duration, Instant, MAX_INSTANT_MILLIS, MAX_SPAN_MILLIS};

verus! {

/// Decides, from the current time alone, whether a driving loop should poll
/// its controllers now.
///
/// A loop that wakes more often than its operating interval asks
/// [`Cadence::should_run`] on every wake-up: the answer is yes exactly when
/// the next execution time has been reached, and a yes re-arms the next
/// execution at the current time plus the interval. Everything else about
/// the loop, sleeping and message delivery included, stays outside this
/// crate.
pub struct Cadence {
    interval: Duration,
    next_execution_time: Instant,
}

impl Cadence {
    /// The operating interval.
    pub closed spec fn spec_interval(&self) -> Duration {
        self.interval
    }

    /// The next instant at which the loop should poll.
    pub closed spec fn spec_next(&self) -> Instant {
        self.next_execution_time
    }

    /// Validity: the interval is in range and the armed time is the sum of
    /// an in-range instant and the interval.
    pub open spec fn wf(&self) -> bool {
        &&& -MAX_SPAN_MILLIS <= self.spec_interval().millis <= MAX_SPAN_MILLIS
        &&& -(MAX_INSTANT_MILLIS + MAX_SPAN_MILLIS) <= self.spec_next().millis
            <= MAX_INSTANT_MILLIS + MAX_SPAN_MILLIS
    }

    /// A cadence first due at `start` plus `interval`.
    pub fn new(start: Instant, interval: Duration) -> (r: Cadence)
        requires
            -MAX_SPAN_MILLIS <= interval.millis <= MAX_SPAN_MILLIS,
            -MAX_INSTANT_MILLIS <= start.millis <= MAX_INSTANT_MILLIS,
        ensures
            r.wf(),
            r.spec_interval() == interval,
            r.spec_next().millis == start.millis + interval.millis,
    {
        Cadence { interval, next_execution_time: start.plus(interval) }
    }

    /// True exactly when the next execution time has been reached; a yes
    /// re-arms the next execution at `now` plus the interval, a no leaves
    /// the cadence untouched.
    pub fn should_run(&mut self, now: Instant) -> (r: bool)
        requires
            old(self).wf(),
            -MAX_INSTANT_MILLIS <= now.millis <= MAX_INSTANT_MILLIS,
        ensures
            r == (now.millis >= old(self).spec_next().millis),
            final(self).spec_interval() == old(self).spec_interval(),
            r ==> final(self).spec_next().millis == now.millis + old(self).spec_interval().millis,
            !r ==> *final(self) == *old(self),
            final(self).wf(),
    {
        if now.millis >= self.next_execution_time.millis {
            self.next_execution_time = now.plus(self.interval);
            true
        } else {
            false
        }
    }
}

} // verus!
