//! Plain time model used throughout the crate.
//!
//! An [`Instant`] is a count of milliseconds relative to the Unix epoch on the
//! UTC timeline, a [`Duration`] is a signed span of milliseconds, and a
//! [`ClockTime`] is a time of day. In UTC every calendar day is exactly
//! [`MILLIS_PER_DAY`] milliseconds long, so day boundaries and times of day
//! are ordinary integer arithmetic on the millisecond count.

use vstd::prelude::*;
use vstd::arithmetic::div_mod::lemma_mod_multiples_vanish;

verus! {

/// Milliseconds in one UTC calendar day.
pub const MILLIS_PER_DAY: i64 = 86_400_000;

/// Largest magnitude of an [`Instant`] the controllers accept when polled,
/// roughly 126 thousand years away from the epoch. Keeping poll times inside
/// this range lets every schedule computation stay inside `i64`.
pub const MAX_INSTANT_MILLIS: i64 = 4_000_000_000_000_000;

/// Largest magnitude of a [`Duration`] used as a controller interval or a
/// timed-output duration, roughly 31 thousand years.
pub const MAX_SPAN_MILLIS: i64 = 1_000_000_000_000_000;

/// A point on the UTC timeline, in milliseconds since the Unix epoch.
#[derive(Clone, Copy, PartialEq, Eq, Structural, Debug)]
pub struct Instant {
    pub millis: i64,
}

/// A signed span of time, in milliseconds.
#[derive(Clone, Copy, PartialEq, Eq, Structural, Debug)]
pub struct Duration {
    pub millis: i64,
}

impl Instant {
    /// The instant a given number of milliseconds after the epoch.
    pub fn from_millis(millis: i64) -> (r: Instant)
        ensures
            r.millis == millis,
    {
        Instant { millis }
    }

    /// This instant shifted forward by `d` (backward when `d` is negative).
    pub fn plus(self, d: Duration) -> (r: Instant)
        requires
            i64::MIN <= self.millis + d.millis <= i64::MAX,
        ensures
            r.millis == self.millis + d.millis,
    {
        Instant { millis: self.millis + d.millis }
    }

    /// This instant shifted backward by `d`.
    pub fn minus(self, d: Duration) -> (r: Instant)
        requires
            i64::MIN <= self.millis - d.millis <= i64::MAX,
        ensures
            r.millis == self.millis - d.millis,
    {
        Instant { millis: self.millis - d.millis }
    }
}

impl Duration {
    /// A span of `n` milliseconds.
    pub fn milliseconds(n: i64) -> (r: Duration)
        ensures
            r.millis == n,
    {
        Duration { millis: n }
    }

    /// A span of `n` seconds.
    pub fn seconds(n: i64) -> (r: Duration)
        requires
            -9_223_372_036_854_775 <= n <= 9_223_372_036_854_775,
        ensures
            r.millis == n * 1000,
    {
        Duration { millis: n * 1000 }
    }

    /// A span of `n` minutes.
    pub fn minutes(n: i64) -> (r: Duration)
        requires
            -153_722_867_280_912 <= n <= 153_722_867_280_912,
        ensures
            r.millis == n * 60_000,
    {
        Duration { millis: n * 60_000 }
    }

    /// A span of `n` hours.
    pub fn hours(n: i64) -> (r: Duration)
        requires
            -2_562_047_788_015 <= n <= 2_562_047_788_015,
        ensures
            r.millis == n * 3_600_000,
    {
        Duration { millis: n * 3_600_000 }
    }

    /// A span of `n` days.
    pub fn days(n: i64) -> (r: Duration)
        requires
            -106_751_991_167 <= n <= 106_751_991_167,
        ensures
            r.millis == n * 86_400_000,
    {
        Duration { millis: n * 86_400_000 }
    }
}

/// A time of day, in milliseconds after midnight.
#[derive(Clone, Copy, PartialEq, Eq, Structural, Debug)]
pub struct ClockTime {
    pub millis_of_day: i64,
}

impl ClockTime {
    /// True when the stored value really is a time of day.
    pub open spec fn is_valid(self) -> bool {
        0 <= self.millis_of_day < MILLIS_PER_DAY
    }

    /// The time of day `hour:min:sec`, or `None` when a component is out of
    /// range.
    pub fn from_hms(hour: u32, min: u32, sec: u32) -> (r: Option<ClockTime>)
        ensures
            (hour < 24 && min < 60 && sec < 60) <==> r is Some,
            r matches Some(c) ==> c.millis_of_day
                == hour * 3_600_000 + min * 60_000 + sec * 1000 && c.is_valid(),
    {
        if hour < 24 && min < 60 && sec < 60 {
            let m: i64 = (hour as i64) * 3_600_000 + (min as i64) * 60_000 + (sec as i64) * 1000;
            Some(ClockTime { millis_of_day: m })
        } else {
            None
        }
    }
}

/// The time of day of the instant `millis`, as milliseconds after midnight of
/// its UTC calendar day. Euclidean remainder keeps the result in
/// `[0, MILLIS_PER_DAY)` even for instants before the epoch.
pub open spec fn spec_time_of_day(millis: int) -> int {
    millis % (MILLIS_PER_DAY as int)
}

/// Midnight of the UTC calendar day that contains the instant `millis`.
pub open spec fn spec_day_start(millis: int) -> int {
    millis - spec_time_of_day(millis)
}

/// The time of day at `t`.
pub fn time_of_day(t: Instant) -> (r: i64)
    requires
        -MAX_INSTANT_MILLIS <= t.millis <= MAX_INSTANT_MILLIS,
    ensures
        r == spec_time_of_day(t.millis as int),
        0 <= r < MILLIS_PER_DAY,
{
    // Shift by a large multiple of a day so the remainder is taken of a
    // non-negative value, where Rust's `%` agrees with the Euclidean one.
    let shifted: i64 = t.millis + 8_640_000_000_000_000;
    proof {
        lemma_mod_multiples_vanish(100_000_000, t.millis as int, MILLIS_PER_DAY as int);
    }
    shifted % MILLIS_PER_DAY
}

/// Midnight of the UTC calendar day containing `t`.
pub fn day_start(t: Instant) -> (r: i64)
    requires
        -MAX_INSTANT_MILLIS <= t.millis <= MAX_INSTANT_MILLIS,
    ensures
        r == spec_day_start(t.millis as int),
{
    t.millis - time_of_day(t)
}

} // verus!
