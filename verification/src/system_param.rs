//! System parameter queries.
//!
//! The registry reads happen through platform calls outside this library;
//! this module carries their error form.

use vstd::prelude::*;

verus! {

/// Error from a system-parameter query, wrapping the raw device code.
#[derive(Debug, Clone, Copy, PartialEq, Eq, Structural)]
pub struct ParamError(pub i32);

} // verus!
