//! Font library handles.
//!
//! Glyph lookup and rendering run through the platform's font service
//! outside this library; these types record the granted handles.

use vstd::prelude::*;

verus! {

/// Error from a font operation.
#[derive(Debug, Clone, Copy, PartialEq, Eq, Structural)]
pub enum FontError {
    /// Raw device code from a font call.
    Sce(i32),
    /// Font library error code.
    Lib(u32),
    /// No matching font was found.
    NotFound,
    /// The font library is not initialized.
    NotInitialized,
}

/// The initialized font library: the handle the platform granted.
pub struct FontLib {
    /// The granted library handle.
    pub handle: u32,
}

/// An open font: its handle and the library it came from.
pub struct Font {
    /// The granted font handle.
    pub handle: u32,
    /// The owning library's handle.
    pub lib_handle: u32,
}

impl Font {
    /// The raw font handle.
    pub fn handle(&self) -> (r: u32)
        ensures
            r == self.handle,
    {
        self.handle
    }
}

} // verus!
