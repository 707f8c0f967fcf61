//! Time and clock arithmetic.
//!
//! The platform's tick counter runs at 1 MHz, so microseconds are the
//! native resolution: [`Duration`] counts microseconds, [`Instant`] wraps a
//! tick value and [`SystemTime`] a count of microseconds since the
//! platform epoch. Reading the clocks is platform work done outside this
//! library; the tick values arrive here as plain numbers.

use vstd::prelude::*;

verus! {

/// Error from a time operation, wrapping the raw device error code.
#[derive(Debug, Clone, Copy, PartialEq, Eq, Structural)]
pub struct TimeError(pub i32);

/// A span of time in microseconds.
#[derive(Debug, Clone, Copy, PartialEq, Eq, Structural)]
pub struct Duration {
    /// Total microseconds.
    pub micros: u64,
}

impl Duration {
    /// A duration of `us` microseconds.
    pub fn from_micros(us: u64) -> (r: Self)
        ensures
            r.micros == us,
    {
        Duration { micros: us }
    }

    /// A duration of `ms` milliseconds.
    pub fn from_millis(ms: u64) -> (r: Self)
        requires
            ms * 1000 <= u64::MAX,
        ensures
            r.micros == ms * 1000,
    {
        Duration { micros: ms * 1000 }
    }

    /// A duration of `s` whole seconds.
    pub fn from_secs(s: u64) -> (r: Self)
        requires
            s * 1_000_000 <= u64::MAX,
        ensures
            r.micros == s * 1_000_000,
    {
        Duration { micros: s * 1_000_000 }
    }

    /// The total number of microseconds.
    pub fn as_micros(&self) -> (r: u64)
        ensures
            r == self.micros,
    {
        self.micros
    }

    /// The total number of whole milliseconds.
    pub fn as_millis(&self) -> (r: u64)
        ensures
            r == self.micros / 1000,
    {
        self.micros / 1000
    }

    /// The sum of two durations, or None on overflow.
    pub fn checked_add(&self, other: Duration) -> (r: Option<Duration>)
        ensures
            self.micros + other.micros <= u64::MAX ==> r == Some(
                Duration { micros: (self.micros + other.micros) as u64 },
            ),
            self.micros + other.micros > u64::MAX ==> r == None::<Duration>,
    {
        if self.micros <= u64::MAX - other.micros {
            Some(Duration { micros: self.micros + other.micros })
        } else {
            None
        }
    }

    /// The difference of two durations, or None when `other` is longer.
    pub fn checked_sub(&self, other: Duration) -> (r: Option<Duration>)
        ensures
            self.micros >= other.micros ==> r == Some(
                Duration { micros: (self.micros - other.micros) as u64 },
            ),
            self.micros < other.micros ==> r == None::<Duration>,
    {
        if self.micros >= other.micros {
            Some(Duration { micros: self.micros - other.micros })
        } else {
            None
        }
    }
}

/// A monotonic timestamp from the platform's 1 MHz tick counter.
#[derive(Debug, Clone, Copy, PartialEq, Eq, Structural)]
pub struct Instant {
    /// The raw tick value (microseconds).
    pub tick: u64,
}

impl Instant {
    /// An instant from a raw tick value, as the platform's tick-counter
    /// read reports it.
    pub fn from_ticks(tick: u64) -> (r: Self)
        ensures
            r.tick == tick,
    {
        Instant { tick }
    }

    /// Time from `earlier` to `self`. An earlier instant that is actually
    /// later (the counter wrapped) gives the zero duration.
    pub fn duration_since(&self, earlier: Instant) -> (r: Duration)
        ensures
            self.tick >= earlier.tick ==> r.micros == self.tick - earlier.tick,
            self.tick < earlier.tick ==> r.micros == 0,
    {
        if self.tick >= earlier.tick {
            Duration { micros: self.tick - earlier.tick }
        } else {
            Duration { micros: 0 }
        }
    }

    /// The raw tick value.
    pub fn as_ticks(&self) -> (r: u64)
        ensures
            r == self.tick,
    {
        self.tick
    }

    /// The span between two instants, or None when `other` is later.
    pub fn checked_sub_instant(&self, other: &Instant) -> (r: Option<Duration>)
        ensures
            self.tick >= other.tick ==> r == Some(
                Duration { micros: (self.tick - other.tick) as u64 },
            ),
            self.tick < other.tick ==> r == None::<Duration>,
    {
        if self.tick >= other.tick {
            Some(Duration { micros: self.tick - other.tick })
        } else {
            None
        }
    }

    /// This instant moved forward by a duration, or None on overflow.
    pub fn checked_add_duration(&self, other: &Duration) -> (r: Option<Instant>)
        ensures
            self.tick + other.micros <= u64::MAX ==> r == Some(
                Instant { tick: (self.tick + other.micros) as u64 },
            ),
            self.tick + other.micros > u64::MAX ==> r == None::<Instant>,
    {
        if self.tick <= u64::MAX - other.micros {
            Some(Instant { tick: self.tick + other.micros })
        } else {
            None
        }
    }

    /// This instant moved backward by a duration, or None when it would
    /// fall before the counter's origin.
    pub fn checked_sub_duration(&self, other: &Duration) -> (r: Option<Instant>)
        ensures
            self.tick >= other.micros ==> r == Some(
                Instant { tick: (self.tick - other.micros) as u64 },
            ),
            self.tick < other.micros ==> r == None::<Instant>,
    {
        if self.tick >= other.micros {
            Some(Instant { tick: self.tick - other.micros })
        } else {
            None
        }
    }
}

/// A wall-clock time: microseconds since the platform epoch.
#[derive(Debug, Clone, Copy, PartialEq, Eq, Structural)]
pub struct SystemTime {
    /// Microseconds since the platform epoch.
    pub micros: u64,
}

impl SystemTime {
    /// A system time from a raw microsecond count, as the platform's
    /// clock read reports it.
    pub fn from_micros(micros: u64) -> (r: Self)
        ensures
            r.micros == micros,
    {
        SystemTime { micros }
    }

    /// The span from `other` to `self`: Ok with the difference when
    /// `self` is not earlier, otherwise Err with how far `self` lags.
    pub fn sub_time(&self, other: &SystemTime) -> (r: Result<Duration, Duration>)
        ensures
            self.micros >= other.micros ==> r == Ok::<Duration, Duration>(
                Duration { micros: (self.micros - other.micros) as u64 },
            ),
            self.micros < other.micros ==> r == Err::<Duration, Duration>(
                Duration { micros: (other.micros - self.micros) as u64 },
            ),
    {
        if self.micros >= other.micros {
            Ok(Duration { micros: self.micros - other.micros })
        } else {
            Err(Duration { micros: other.micros - self.micros })
        }
    }

    /// This time moved forward by a duration, or None on overflow.
    pub fn checked_add_duration(&self, other: &Duration) -> (r: Option<SystemTime>)
        ensures
            self.micros + other.micros <= u64::MAX ==> r == Some(
                SystemTime { micros: (self.micros + other.micros) as u64 },
            ),
            self.micros + other.micros > u64::MAX ==> r == None::<SystemTime>,
    {
        if self.micros <= u64::MAX - other.micros {
            Some(SystemTime { micros: self.micros + other.micros })
        } else {
            None
        }
    }

    /// This time moved backward by a duration, or None when it would fall
    /// before the epoch.
    pub fn checked_sub_duration(&self, other: &Duration) -> (r: Option<SystemTime>)
        ensures
            self.micros >= other.micros ==> r == Some(
                SystemTime { micros: (self.micros - other.micros) as u64 },
            ),
            self.micros < other.micros ==> r == None::<SystemTime>,
    {
        if self.micros >= other.micros {
            Some(SystemTime { micros: self.micros - other.micros })
        } else {
            None
        }
    }
}

/// Wall-clock date and time, as the platform's real-time clock reports it.
#[derive(Debug, Clone, Copy, PartialEq, Eq, Structural)]
pub struct DateTime {
    /// Calendar year.
    pub year: u16,
    /// Month, 1..=12.
    pub month: u16,
    /// Day of month, 1..=31.
    pub day: u16,
    /// Hour, 0..=23.
    pub hour: u16,
    /// Minute, 0..=59.
    pub minute: u16,
    /// Second, 0..=59.
    pub second: u16,
    /// Microsecond, 0..=999999.
    pub microsecond: u32,
}

impl DateTime {
    /// A date and time from the fields the platform clock read reports.
    pub fn from_fields(
        year: u16,
        month: u16,
        day: u16,
        hour: u16,
        minute: u16,
        second: u16,
        microsecond: u32,
    ) -> (r: Self)
        ensures
            r == (DateTime { year, month, day, hour, minute, second, microsecond }),
    {
        DateTime { year, month, day, hour, minute, second, microsecond }
    }

    /// Calendar year.
    pub fn year(&self) -> (r: u16)
        ensures
            r == self.year,
    {
        self.year
    }

    /// Month, 1..=12.
    pub fn month(&self) -> (r: u16)
        ensures
            r == self.month,
    {
        self.month
    }

    /// Day of month.
    pub fn day(&self) -> (r: u16)
        ensures
            r == self.day,
    {
        self.day
    }

    /// Hour of day.
    pub fn hour(&self) -> (r: u16)
        ensures
            r == self.hour,
    {
        self.hour
    }

    /// Minute of hour.
    pub fn minute(&self) -> (r: u16)
        ensures
            r == self.minute,
    {
        self.minute
    }

    /// Second of minute.
    pub fn second(&self) -> (r: u16)
        ensures
            r == self.second,
    {
        self.second
    }

    /// Microsecond of second.
    pub fn microsecond(&self) -> (r: u32)
        ensures
            r == self.microsecond,
    {
        self.microsecond
    }
}

} // verus!
