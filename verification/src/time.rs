//! Time utilities for the robot framework.
//!
//! A `Time` is a timestamp (seconds since the Unix epoch plus a
//! nanosecond part); a `Duration` is a non-negative span. Arithmetic on
//! both is specified exactly.

use vstd::prelude::*;

use crate::error::RobotError;

verus! {

/// Nanoseconds in one second.
pub const NANOS_PER_SEC: u32 = 1_000_000_000;

/// High-precision timestamp.
#[derive(Debug, Clone, Copy, PartialEq, Eq, Structural)]
pub struct Time {
    /// Seconds since Unix epoch
    pub sec: i64,
    /// Nanoseconds within the second
    pub nsec: u32,
}

/// Relies on `std::time::SystemTime::now` (and the conversions
/// `duration_since(UNIX_EPOCH)`, `as_secs`, `subsec_nanos` on its
/// result): seconds and nanoseconds elapsed since the Unix epoch, the
/// nanosecond part below one billion as `subsec_nanos` documents, and
/// zero if the clock reads earlier than the epoch. What the clock
/// returns depends on the machine, so nothing more is promised.
#[verifier::external_body]
fn clock_since_epoch() -> (r: (i64, u32))
    ensures
        r.1 < NANOS_PER_SEC,
        r.0 >= 0,
{
    let d = std::time::SystemTime::now()
        .duration_since(std::time::UNIX_EPOCH)
        .unwrap_or_default();
    (i64::try_from(d.as_secs()).unwrap_or(i64::MAX), d.subsec_nanos())
}

impl Time {
    /// Whether the nanosecond part is in its carrying range.
    pub open spec fn normalized(&self) -> bool {
        self.nsec < NANOS_PER_SEC
    }

    /// Create a new time from seconds and nanoseconds.
    pub fn new(sec: i64, nsec: u32) -> (r: Self)
        ensures
            r == (Time { sec, nsec }),
    {
        Time { sec, nsec }
    }

    /// Get the current time.
    pub fn now() -> (r: Self)
        ensures
            r.normalized(),
            r.sec >= 0,
    {
        let (sec, nsec) = clock_since_epoch();
        Time { sec, nsec }
    }

    /// Create a time from a duration measured from the epoch.
    pub fn from_duration(duration: Duration) -> (r: Self)
        requires
            duration.sec <= i64::MAX,
        ensures
            r.sec == duration.sec as i64,
            r.nsec == duration.nsec,
    {
        Time { sec: duration.sec as i64, nsec: duration.nsec }
    }

    /// Convert to a duration measured from the epoch.
    pub fn to_duration(&self) -> (r: Duration)
        requires
            self.sec >= 0,
        ensures
            r.sec == self.sec as u64,
            r.nsec == self.nsec,
    {
        Duration { sec: self.sec as u64, nsec: self.nsec }
    }

    /// Whether this time is at or after `other`, comparing seconds
    /// first and the nanosecond part second.
    pub open spec fn spec_at_or_after(&self, other: Time) -> bool {
        self.sec > other.sec || (self.sec == other.sec && self.nsec >= other.nsec)
    }

    /// Calculate the span since another, earlier time. Fails whenever
    /// this time is strictly before `earlier`. The nanosecond part
    /// borrows without carrying into the seconds, as the second
    /// difference is taken whole.
    pub fn duration_since(&self, earlier: Time) -> (r: Result<Duration, RobotError>)
        requires
            self.normalized(),
            earlier.normalized(),
            self.sec - earlier.sec <= i64::MAX,
        ensures
            r is Ok <==> self.spec_at_or_after(earlier),
            self.spec_at_or_after(earlier) ==> (r matches Ok(d) && {
                &&& d.sec == self.sec - earlier.sec
                &&& d.nsec == if self.nsec >= earlier.nsec {
                    self.nsec - earlier.nsec
                } else {
                    NANOS_PER_SEC + self.nsec - earlier.nsec
                }
            }),
            !self.spec_at_or_after(earlier) ==> (r matches Err(e) && e is Time),
    {
        if self.sec > earlier.sec || (self.sec == earlier.sec && self.nsec >= earlier.nsec) {
            let nsec: u32 = if self.nsec >= earlier.nsec {
                self.nsec - earlier.nsec
            } else {
                NANOS_PER_SEC + self.nsec - earlier.nsec
            };
            Ok(Duration { sec: (self.sec - earlier.sec) as u64, nsec })
        } else {
            Err(RobotError::Time(String::from_str("time is earlier than reference")))
        }
    }

    /// Add a duration to this time, carrying overflowing nanoseconds
    /// into the seconds.
    pub fn add_duration(&self, duration: Duration) -> (r: Self)
        requires
            duration.sec <= i64::MAX,
            self.sec + duration.sec + (self.nsec + duration.nsec) / (NANOS_PER_SEC as int)
                <= i64::MAX,
            i64::MIN <= self.sec + duration.sec,
        ensures
            r.sec == self.sec + duration.sec + (self.nsec + duration.nsec) / (NANOS_PER_SEC as int),
            r.nsec == (self.nsec + duration.nsec) % (NANOS_PER_SEC as int),
    {
        let total_nsec: u64 = self.nsec as u64 + duration.nsec as u64;
        let extra_sec: u64 = total_nsec / NANOS_PER_SEC as u64;
        let nsec: u32 = (total_nsec % NANOS_PER_SEC as u64) as u32;
        Time { sec: self.sec + duration.sec as i64 + extra_sec as i64, nsec }
    }

    /// Subtract a duration from this time, borrowing one second when
    /// the nanosecond part of the duration is the larger.
    pub fn sub_duration(&self, duration: Duration) -> (r: Self)
        requires
            self.normalized(),
            duration.normalized(),
            duration.sec <= i64::MAX,
            i64::MIN <= self.sec - duration.sec - 1,
        ensures
            self.nsec >= duration.nsec ==> r == (Time {
                sec: (self.sec - duration.sec) as i64,
                nsec: (self.nsec - duration.nsec) as u32,
            }),
            self.nsec < duration.nsec ==> r == (Time {
                sec: (self.sec - duration.sec - 1) as i64,
                nsec: (NANOS_PER_SEC + self.nsec - duration.nsec) as u32,
            }),
    {
        let total_nsec: u32 = if self.nsec >= duration.nsec {
            self.nsec - duration.nsec
        } else {
            NANOS_PER_SEC + self.nsec - duration.nsec
        };
        let sec_adjustment: i64 = if self.nsec < duration.nsec {
            1
        } else {
            0
        };
        Time { sec: self.sec - duration.sec as i64 - sec_adjustment, nsec: total_nsec }
    }
}

/// A span of time: seconds plus a nanosecond part.
#[derive(Debug, Clone, Copy, PartialEq, Eq, Structural)]
pub struct Duration {
    /// Seconds component
    pub sec: u64,
    /// Nanoseconds component
    pub nsec: u32,
}

impl Duration {
    /// Whether the nanosecond part is in its carrying range.
    pub open spec fn normalized(&self) -> bool {
        self.nsec < NANOS_PER_SEC
    }

    /// Create a new duration.
    pub fn new(sec: u64, nsec: u32) -> (r: Self)
        ensures
            r == (Duration { sec, nsec }),
    {
        Duration { sec, nsec }
    }

    /// Create a duration from whole seconds.
    pub fn from_secs(secs: u64) -> (r: Self)
        ensures
            r == (Duration { sec: secs, nsec: 0u32 }),
    {
        Duration { sec: secs, nsec: 0 }
    }

    /// Create a duration from milliseconds.
    pub fn from_millis(millis: u64) -> (r: Self)
        ensures
            r.sec == millis / 1000,
            r.nsec == (millis % 1000) * 1_000_000,
            r.normalized(),
    {
        Duration { sec: millis / 1000, nsec: ((millis % 1000) * 1_000_000) as u32 }
    }

    /// Create a duration from microseconds.
    pub fn from_micros(micros: u64) -> (r: Self)
        ensures
            r.sec == micros / 1_000_000,
            r.nsec == (micros % 1_000_000) * 1000,
            r.normalized(),
    {
        Duration { sec: micros / 1_000_000, nsec: ((micros % 1_000_000) * 1000) as u32 }
    }

    /// Create a duration from nanoseconds.
    pub fn from_nanos(nanos: u64) -> (r: Self)
        ensures
            r.sec == nanos / (NANOS_PER_SEC as u64),
            r.nsec == nanos % (NANOS_PER_SEC as u64),
            r.normalized(),
    {
        Duration {
            sec: nanos / NANOS_PER_SEC as u64,
            nsec: (nanos % NANOS_PER_SEC as u64) as u32,
        }
    }

    /// Get the duration in whole milliseconds.
    pub fn as_millis(&self) -> (r: u64)
        requires
            self.sec * 1000 + self.nsec / 1_000_000 <= u64::MAX,
        ensures
            r == self.sec * 1000 + self.nsec / 1_000_000,
    {
        self.sec * 1000 + (self.nsec / 1_000_000) as u64
    }

    /// Get the duration in whole microseconds.
    pub fn as_micros(&self) -> (r: u64)
        requires
            self.sec * 1_000_000 + self.nsec / 1000 <= u64::MAX,
        ensures
            r == self.sec * 1_000_000 + self.nsec / 1000,
    {
        self.sec * 1_000_000 + (self.nsec / 1000) as u64
    }

    /// Get the duration in nanoseconds.
    pub fn as_nanos(&self) -> (r: u64)
        requires
            self.sec * (NANOS_PER_SEC as int) + self.nsec <= u64::MAX,
        ensures
            r == self.sec * (NANOS_PER_SEC as int) + self.nsec,
    {
        self.sec * NANOS_PER_SEC as u64 + self.nsec as u64
    }

    /// Whether this duration is strictly shorter than `other`,
    /// comparing seconds first and the nanosecond part second.
    pub open spec fn spec_shorter_than(&self, other: Duration) -> bool {
        self.sec < other.sec || (self.sec == other.sec && self.nsec < other.nsec)
    }

    /// Add two durations, carrying overflowing nanoseconds into the
    /// seconds.
    pub fn add_duration(&self, other: Duration) -> (r: Self)
        requires
            self.sec + other.sec + (self.nsec + other.nsec) / (NANOS_PER_SEC as int) <= u64::MAX,
        ensures
            r.sec == self.sec + other.sec + (self.nsec + other.nsec) / (NANOS_PER_SEC as int),
            r.nsec == (self.nsec + other.nsec) % (NANOS_PER_SEC as int),
    {
        let total_nsec: u64 = self.nsec as u64 + other.nsec as u64;
        let extra_sec: u64 = total_nsec / NANOS_PER_SEC as u64;
        let nsec: u32 = (total_nsec % NANOS_PER_SEC as u64) as u32;
        Duration { sec: self.sec + other.sec + extra_sec, nsec }
    }

    /// Subtract a duration, stopping at zero when `other` is the
    /// longer, and borrowing one second when only its nanosecond part
    /// is.
    pub fn sub_duration(&self, other: Duration) -> (r: Self)
        requires
            self.normalized(),
            other.normalized(),
        ensures
            self.spec_shorter_than(other) ==> r == (Duration { sec: 0u64, nsec: 0u32 }),
            !self.spec_shorter_than(other) ==> r == (Duration {
                sec: if self.nsec >= other.nsec {
                    (self.sec - other.sec) as u64
                } else {
                    (self.sec - other.sec - 1) as u64
                },
                nsec: if self.nsec >= other.nsec {
                    (self.nsec - other.nsec) as u32
                } else {
                    (NANOS_PER_SEC + self.nsec - other.nsec) as u32
                },
            }),
    {
        if self.sec < other.sec || (self.sec == other.sec && self.nsec < other.nsec) {
            return Duration { sec: 0, nsec: 0 };
        }
        if self.nsec >= other.nsec {
            Duration { sec: self.sec - other.sec, nsec: self.nsec - other.nsec }
        } else {
            Duration { sec: self.sec - other.sec - 1, nsec: NANOS_PER_SEC + self.nsec - other.nsec }
        }
    }

    /// Check if the duration is zero.
    pub fn is_zero(&self) -> (r: bool)
        ensures
            r <==> (self.sec == 0 && self.nsec == 0),
    {
        self.sec == 0 && self.nsec == 0
    }
}

impl Default for Duration {
    /// The zero duration.
    fn default() -> (r: Self)
        ensures
            r == (Duration { sec: 0u64, nsec: 0u32 }),
    {
        Duration { sec: 0, nsec: 0 }
    }
}

/// Rate limiter for controlling execution frequency. The waiting
/// itself is driven by the caller; this type only records the period
/// and the last release time.
#[derive(Debug, Clone, Copy)]
pub struct Rate {
    /// The expected period between releases.
    pub period: Duration,
    /// When the caller last released, if it ever has.
    pub last_time: Option<Time>,
}

impl Rate {
    /// Create a new rate with the given period.
    pub fn with_period(period: Duration) -> (r: Self)
        ensures
            r.period == period,
            r.last_time is None,
    {
        Rate { period, last_time: None }
    }

    /// The expected period.
    pub fn period(&self) -> (r: Duration)
        ensures
            r == self.period,
    {
        self.period
    }

    /// Record that the caller released at `now`.
    pub fn mark(&mut self, now: Time)
        ensures
            final(self).period == old(self).period,
            final(self).last_time == Some(now),
    {
        self.last_time = Some(now);
    }

    /// Reset the rate timer.
    pub fn reset(&mut self)
        ensures
            final(self).period == old(self).period,
            final(self).last_time is None,
    {
        self.last_time = None;
    }
}

} // verus!
