//! Standard stream handles.
//!
//! The reads and writes go through the platform's descriptors outside
//! this library; the handles themselves carry no state.

use crate::io::IoError;
use vstd::prelude::*;

verus! {

/// The standard input stream.
#[derive(Debug, Clone, Copy, PartialEq, Eq, Structural)]
pub struct Stdin;

/// The standard output stream.
#[derive(Debug, Clone, Copy, PartialEq, Eq, Structural)]
pub struct Stdout;

/// The standard error stream.
#[derive(Debug, Clone, Copy, PartialEq, Eq, Structural)]
pub struct Stderr;

impl Stdin {
    /// The standard input handle.
    pub fn new() -> (r: Stdin)
        ensures
            r == Stdin,
    {
        Stdin
    }
}

impl Stdout {
    /// The standard output handle.
    pub fn new() -> (r: Stdout)
        ensures
            r == Stdout,
    {
        Stdout
    }
}

impl Stderr {
    /// The standard error handle.
    pub fn new() -> (r: Stderr)
        ensures
            r == Stderr,
    {
        Stderr
    }
}

/// Every stream error counts as a bad descriptor on this platform.
pub fn is_ebadf(_err: &IoError) -> (r: bool)
    ensures
        r == true,
{
    true
}

/// Panics are reported on the standard error stream.
pub fn panic_output() -> (r: Option<Stderr>)
    ensures
        r == Some(Stderr),
{
    Some(Stderr::new())
}

} // verus!
