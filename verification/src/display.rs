//! Display controller state.
//!
//! Pointing the controller at a framebuffer is a platform call made
//! outside this library; this record carries the current configuration
//! as plain values.

use crate::framebuffer::DisplayPixelFormat;
use vstd::prelude::*;

verus! {

/// The current framebuffer configuration as the display controller
/// reports it.
#[derive(Debug, Clone, Copy, PartialEq, Eq, Structural)]
pub struct FrameBufInfo {
    /// Address of the top-left pixel of the framebuffer.
    pub top_addr: usize,
    /// Buffer width in pixels (power of two, typically 512).
    pub buf_width: usize,
    /// Pixel format of the framebuffer.
    pub pixel_format: DisplayPixelFormat,
}

} // verus!
