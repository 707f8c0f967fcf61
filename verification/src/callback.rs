//! Exit-callback registration errors.
//!
//! The callback registration itself is a platform call made outside this
//! library; this module carries its error form.

use vstd::prelude::*;

verus! {

/// Error from a callback registration, wrapping the raw device code.
#[derive(Debug, Clone, Copy, PartialEq, Eq, Structural)]
pub struct CallbackError(pub i32);

} // verus!
