//! Graphics-core state snapshots.
//!
//! Capturing and restoring the state are platform calls made outside this
//! library; the snapshot is the plain bit set they exchange.

use vstd::prelude::*;

verus! {

/// The graphics core's boolean state bits, as one captured word.
#[derive(Debug, Clone, Copy, PartialEq, Eq, Structural)]
pub struct GuStateSnapshot {
    /// The captured state bits.
    pub bits: i32,
}

} // verus!
