//! USB state.
//!
//! Starting the bus and activating storage mode are platform calls made
//! outside this library; these types carry their outcomes.

use vstd::prelude::*;

verus! {

/// Error from a USB operation, wrapping the raw device code.
#[derive(Debug, Clone, Copy, PartialEq, Eq, Structural)]
pub struct UsbError(pub i32);

/// Active USB storage mode. Deactivation is the platform's teardown call.
#[derive(Debug, Clone, Copy, PartialEq, Eq, Structural)]
pub struct UsbStorageMode {
    /// Whether the host has the storage mounted, per the last bus query.
    pub established: bool,
}

impl UsbStorageMode {
    /// Whether the host had the storage mounted at the last bus query.
    pub fn is_mounted(&self) -> (r: bool)
        ensures
            r == self.established,
    {
        self.established
    }
}

} // verus!
