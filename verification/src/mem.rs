//! Partition memory allocations.
//!
//! The kernel's partition allocator is called outside this library; the
//! record keeps the granted block id and address.

use crate::io::SceUid;
use vstd::prelude::*;

verus! {

/// Sealing trait for the partition markers.
pub trait Sealed {

}

/// Marker trait for a memory partition.
pub trait Partition: Sealed {

}

/// Marker for the user-mode main-RAM partition.
pub struct UserPartition;

impl Sealed for UserPartition {

}

impl Partition for UserPartition {

}

/// Marker for the media-engine-accessible kernel partition.
pub struct MePartition;

impl Sealed for MePartition {

}

impl Partition for MePartition {

}

/// A granted allocation from one partition: the kernel block id, its
/// address and size.
pub struct PartitionAlloc {
    /// The granted block id.
    pub block_id: SceUid,
    /// The block's address.
    pub addr: u32,
    /// The block's size in bytes.
    pub size: u32,
}

impl PartitionAlloc {
    /// The kernel block id of this allocation.
    pub fn block_id(&self) -> (r: SceUid)
        ensures
            r == self.block_id,
    {
        self.block_id
    }

    /// The uncached alias of the block's address.
    pub fn as_uncached_addr(&self) -> (r: u32)
        ensures
            r == self.addr | crate::me::UNCACHED_MASK,
    {
        crate::me::to_uncached(self.addr)
    }
}

} // verus!
