//! Direct-memory-access transfer records.
//!
//! The copies themselves run on the platform's DMA controller outside
//! this library; the record carries the transfer's destination address,
//! size and completion flag as plain values.

use vstd::prelude::*;

verus! {

/// Error from a DMA operation.
#[derive(Debug, Clone, Copy, PartialEq, Eq, Structural)]
pub enum DmaError {
    /// The DMA controller is already in use by another transfer.
    Busy,
    /// The platform kernel returned an error code.
    KernelError(i32),
    /// Invalid parameter (null address, zero size).
    InvalidParam,
}

/// A record of one DMA transfer.
#[derive(Debug, Clone, Copy, PartialEq, Eq, Structural)]
pub struct DmaTransfer {
    /// Destination address.
    pub dst: u32,
    /// Transfer size in bytes.
    pub size: u32,
    /// Whether completion was observed.
    pub completed: bool,
}

impl DmaTransfer {
    /// The destination address.
    pub fn dst(&self) -> (r: u32)
        ensures
            r == self.dst,
    {
        self.dst
    }

    /// The transfer size in bytes.
    pub fn size(&self) -> (r: u32)
        ensures
            r == self.size,
    {
        self.size
    }

    /// Whether completion was observed.
    pub fn is_complete(&self) -> (r: bool)
        ensures
            r == self.completed,
    {
        self.completed
    }
}

} // verus!
