//! Real-time clock tick values.
//!
//! The clock itself is read through platform calls outside this library;
//! a tick is a plain 64-bit microsecond count since the platform epoch.

use vstd::prelude::*;

verus! {

/// Error from a real-time-clock operation, wrapping the raw device code.
#[derive(Debug, Clone, Copy, PartialEq, Eq, Structural)]
pub struct RtcError(pub i32);

/// A real-time-clock tick: microseconds since the platform epoch.
#[derive(Debug, Clone, Copy, PartialEq, Eq, Structural)]
pub struct Tick(pub u64);

impl Tick {
    /// Order two ticks: -1 when this one is earlier, 0 when equal,
    /// 1 when later.
    pub fn compare(self, other: Tick) -> (r: i32)
        ensures
            self.0 < other.0 ==> r == -1,
            self.0 == other.0 ==> r == 0,
            self.0 > other.0 ==> r == 1,
    {
        if self.0 < other.0 {
            -1
        } else if self.0 == other.0 {
            0
        } else {
            1
        }
    }
}

} // verus!
