//! Memory-mapped hardware register addresses.
//!
//! The volatile reads and writes happen outside this library; a register
//! is a plain address here.

use vstd::prelude::*;

verus! {

/// A memory-mapped hardware register at a fixed address.
#[derive(Debug, Clone, Copy, PartialEq, Eq, Structural)]
pub struct Register {
    /// The register's physical address.
    pub addr: u32,
}

impl Register {
    /// A register at the given address.
    pub fn new(addr: u32) -> (r: Self)
        ensures
            r.addr == addr,
    {
        Register { addr }
    }

    /// The register's address.
    pub fn addr(&self) -> (r: u32)
        ensures
            r == self.addr,
    {
        self.addr
    }
}

} // verus!
