//! Media-engine address handling and task handles.
//!
//! Starting the media engine and waiting on it are platform calls made
//! outside this library. The engine cannot see cached main memory, so
//! shared addresses carry an uncached-segment bit; that address
//! arithmetic is plain and lives here.

use vstd::prelude::*;

verus! {

/// The address bit that selects the uncached segment.
pub const UNCACHED_MASK: u32 = 0x4000_0000;

/// Boot parameters handed to the media engine: the entry point and its
/// argument, as physical addresses.
#[derive(Debug, Clone, Copy, PartialEq, Eq, Structural)]
pub struct MeBootParams {
    /// Entry-point address.
    pub entry: u32,
    /// Argument passed to the entry point.
    pub arg: i32,
}

/// The uncached alias of an address: the same location read and written
/// past the cache.
pub fn to_uncached(addr: u32) -> (r: u32)
    ensures
        r == addr | UNCACHED_MASK,
{
    addr | UNCACHED_MASK
}

/// The cached alias of an address: the uncached-segment bit cleared.
pub fn to_cached(addr: u32) -> (r: u32)
    ensures
        r == addr & !UNCACHED_MASK,
{
    addr & !UNCACHED_MASK
}

/// A handle to one submitted media-engine task.
#[derive(Debug, Clone, Copy, PartialEq, Eq, Structural)]
pub struct MeHandle {
    /// Sequence number of the submitted task.
    pub seq: u32,
}

/// The media-engine executor's bookkeeping: how many tasks were submitted
/// and whether the engine is busy.
#[derive(Debug, Clone, Copy, PartialEq, Eq, Structural)]
pub struct MeExecutor {
    /// Tasks submitted so far.
    pub submitted: u32,
    /// Whether a task is currently running.
    pub busy: bool,
}

impl MeExecutor {
    /// Whether no task is running.
    pub fn is_idle(&self) -> (r: bool)
        ensures
            r == !self.busy,
    {
        !self.busy
    }
}

} // verus!
