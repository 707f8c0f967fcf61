//! Kernel timer handles.
//!
//! Creating, starting and reading a virtual timer are platform calls made
//! outside this library; the handle records the granted id.

use crate::io::SceUid;
use vstd::prelude::*;

verus! {

/// Error from a timer operation, wrapping the raw device code.
#[derive(Debug, Clone, Copy, PartialEq, Eq, Structural)]
pub struct TimerError(pub i32);

/// A virtual timer: the kernel id the platform granted.
#[derive(Debug, Clone, Copy, PartialEq, Eq, Structural)]
pub struct VTimer {
    /// The granted timer id.
    pub id: SceUid,
}

impl VTimer {
    /// Record a create outcome: a non-negative id becomes a timer, a
    /// negative one the error code.
    pub fn from_create_result(id: SceUid) -> (r: Result<Self, TimerError>)
        ensures
            id.0 >= 0 ==> (r matches Ok(t) && t.id == id),
            id.0 < 0 ==> r == Err::<Self, TimerError>(TimerError(id.0)),
    {
        if id.0 < 0 {
            Err(TimerError(id.0))
        } else {
            Ok(VTimer { id })
        }
    }
}

} // verus!
