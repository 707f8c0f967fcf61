//! Configuration file errors.
//!
//! The key/value store's file work runs outside this library; this module
//! carries the error taxonomy of loading and saving it.

use vstd::prelude::*;

verus! {

/// Error from a configuration operation.
#[derive(Debug, Clone, Copy, PartialEq, Eq, Structural)]
pub enum ConfigError {
    /// I/O error reading or writing the file.
    Io(crate::io::IoError),
    /// The file has an invalid format or unsupported version.
    InvalidFormat,
    /// The requested key was not found.
    KeyNotFound,
    /// The serialized configuration exceeds the maximum size.
    TooLarge,
    /// A key exceeds 255 bytes.
    KeyTooLong,
}

} // verus!
