//! Framebuffer bookkeeping: double buffering, dirty-rectangle tracking and
//! layer compositing state.
//!
//! These types track what the display hardware should be shown — VRAM
//! offsets, pixel formats and dirty regions. Handing the resulting offsets
//! to the display controller, and the blits themselves, are platform work
//! done outside this library.

use vstd::prelude::*;

verus! {

/// Screen width in pixels.
pub const SCREEN_WIDTH: u32 = 480;

/// Screen height in pixels.
pub const SCREEN_HEIGHT: u32 = 272;

/// Framebuffer stride in pixels (power-of-two padded).
pub const BUF_WIDTH: u32 = 512;

/// Display pixel format.
#[derive(Debug, Clone, Copy, PartialEq, Eq, Structural)]
pub enum DisplayPixelFormat {
    /// 16-bit, 5:6:5.
    Psm5650,
    /// 16-bit, 5:5:5:1.
    Psm5551,
    /// 16-bit, 4:4:4:4.
    Psm4444,
    /// 32-bit, 8:8:8:8.
    Psm8888,
}

/// Bytes per pixel of a display pixel format.
pub open spec fn spec_bytes_per_pixel(fmt: DisplayPixelFormat) -> u32 {
    match fmt {
        DisplayPixelFormat::Psm8888 => 4u32,
        _ => 2u32,
    }
}

/// Bytes per pixel for each display pixel format.
pub fn bytes_per_pixel(fmt: DisplayPixelFormat) -> (r: u32)
    ensures
        r == spec_bytes_per_pixel(fmt),
{
    match fmt {
        DisplayPixelFormat::Psm5650 | DisplayPixelFormat::Psm5551 | DisplayPixelFormat::Psm4444 => {
            2
        },
        DisplayPixelFormat::Psm8888 => 4,
    }
}

/// Size of one framebuffer in bytes: stride times height times pixel size.
pub fn framebuffer_size(fmt: DisplayPixelFormat) -> (r: u32)
    ensures
        r == BUF_WIDTH * SCREEN_HEIGHT * spec_bytes_per_pixel(fmt),
{
    BUF_WIDTH * SCREEN_HEIGHT * bytes_per_pixel(fmt)
}

/// Double-buffered framebuffer state with vsync-aware page flipping.
///
/// Two framebuffers sit at fixed VRAM offsets; while the display shows one,
/// the application draws into the other. [`DoubleBuffer::swap`] flips the
/// roles and names the offset the display should be pointed at.
pub struct DoubleBuffer {
    /// VRAM offset of the first buffer (always 0).
    pub offset_a: u32,
    /// VRAM offset of the second buffer (one framebuffer further).
    pub offset_b: u32,
    /// Which buffer is currently displayed (false = first, true = second).
    pub display_second: bool,
    /// Pixel format.
    pub format: DisplayPixelFormat,
    /// Whether swaps should wait for the vertical blank.
    pub vsync: bool,
}

impl DoubleBuffer {
    /// Create a new double buffer: the first buffer at VRAM offset 0 is
    /// displayed, the second sits one framebuffer size further.
    pub fn new(format: DisplayPixelFormat, vsync: bool) -> (r: Self)
        ensures
            r.offset_a == 0,
            r.offset_b == BUF_WIDTH * SCREEN_HEIGHT * spec_bytes_per_pixel(format),
            r.display_second == false,
            r.format == format,
            r.vsync == vsync,
    {
        let fb_size = framebuffer_size(format);
        DoubleBuffer { offset_a: 0, offset_b: fb_size, display_second: false, format, vsync }
    }

    /// The VRAM offset of the draw buffer (the one not being displayed).
    pub fn draw_buffer_offset(&self) -> (r: u32)
        ensures
            r == if self.display_second {
                self.offset_a
            } else {
                self.offset_b
            },
    {
        if self.display_second {
            self.offset_a
        } else {
            self.offset_b
        }
    }

    /// The VRAM offset of the buffer currently displayed.
    pub fn display_buffer_offset(&self) -> (r: u32)
        ensures
            r == if self.display_second {
                self.offset_b
            } else {
                self.offset_a
            },
    {
        if self.display_second {
            self.offset_b
        } else {
            self.offset_a
        }
    }

    /// Swap the draw and display buffers and return the VRAM offset the
    /// display controller should now be pointed at (the freshly drawn
    /// buffer). When vsync is set the caller waits for the vertical blank
    /// before re-pointing the display.
    pub fn swap(&mut self) -> (r: u32)
        ensures
            final(self).display_second == !old(self).display_second,
            final(self).offset_a == old(self).offset_a,
            final(self).offset_b == old(self).offset_b,
            final(self).format == old(self).format,
            final(self).vsync == old(self).vsync,
            r == if final(self).display_second {
                old(self).offset_b
            } else {
                old(self).offset_a
            },
    {
        self.display_second = !self.display_second;
        if self.display_second {
            self.offset_b
        } else {
            self.offset_a
        }
    }

    /// The pixel format.
    pub fn format(&self) -> (r: DisplayPixelFormat)
        ensures
            r == self.format,
    {
        self.format
    }

    /// Enable or disable vsync on swap.
    pub fn set_vsync(&mut self, vsync: bool)
        ensures
            *final(self) == (DoubleBuffer { vsync, ..*old(self) }),
    {
        self.vsync = vsync;
    }
}

/// A dirty-rectangle tracker: the bounding box of every region marked
/// modified since the last clear, so updates can copy only what changed.
#[derive(Debug, Clone, Copy, PartialEq, Eq, Structural)]
pub struct DirtyRect {
    /// Lowest marked x.
    pub min_x: u32,
    /// Lowest marked y.
    pub min_y: u32,
    /// One past the highest marked x.
    pub max_x: u32,
    /// One past the highest marked y.
    pub max_y: u32,
    /// Whether anything was marked at all.
    pub dirty: bool,
}

impl DirtyRect {
    /// A clean tracker: nothing marked, bounds at their empty extremes.
    pub fn new() -> (r: Self)
        ensures
            r == (DirtyRect {
                min_x: u32::MAX,
                min_y: u32::MAX,
                max_x: 0,
                max_y: 0,
                dirty: false,
            }),
    {
        DirtyRect { min_x: u32::MAX, min_y: u32::MAX, max_x: 0, max_y: 0, dirty: false }
    }

    /// Mark the rectangle from `(x, y)` extending `width` by `height` as
    /// dirty: the tracked bounds widen to cover it.
    pub fn mark(&mut self, x: u32, y: u32, width: u32, height: u32)
        requires
            x + width <= u32::MAX,
            y + height <= u32::MAX,
        ensures
            final(self).dirty == true,
            final(self).min_x == if x < old(self).min_x {
                x as int
            } else {
                old(self).min_x as int
            },
            final(self).min_y == if y < old(self).min_y {
                y as int
            } else {
                old(self).min_y as int
            },
            final(self).max_x == if x + width > old(self).max_x {
                x + width
            } else {
                old(self).max_x as int
            },
            final(self).max_y == if y + height > old(self).max_y {
                y + height
            } else {
                old(self).max_y as int
            },
    {
        self.dirty = true;
        if x < self.min_x {
            self.min_x = x;
        }
        if y < self.min_y {
            self.min_y = y;
        }
        if x + width > self.max_x {
            self.max_x = x + width;
        }
        if y + height > self.max_y {
            self.max_y = y + height;
        }
    }

    /// Mark the entire screen as dirty.
    pub fn mark_all(&mut self)
        ensures
            final(self).dirty == true,
            final(self).min_x == if old(self).min_x > 0 {
                0int
            } else {
                old(self).min_x as int
            },
            final(self).min_y == if old(self).min_y > 0 {
                0int
            } else {
                old(self).min_y as int
            },
            final(self).max_x == if SCREEN_WIDTH > old(self).max_x {
                SCREEN_WIDTH as int
            } else {
                old(self).max_x as int
            },
            final(self).max_y == if SCREEN_HEIGHT > old(self).max_y {
                SCREEN_HEIGHT as int
            } else {
                old(self).max_y as int
            },
    {
        self.mark(0, 0, SCREEN_WIDTH, SCREEN_HEIGHT);
    }

    /// The bounding rectangle of everything marked, clipped to the screen:
    /// `Some((x, y, width, height))`, or None when nothing is dirty or the
    /// clipped box is empty.
    pub fn bounds(&self) -> (r: Option<(u32, u32, u32, u32)>)
        ensures
            r == spec_bounds(*self),
    {
        if !self.dirty {
            return None;
        }
        let x = if self.min_x < SCREEN_WIDTH {
            self.min_x
        } else {
            SCREEN_WIDTH
        };
        let y = if self.min_y < SCREEN_HEIGHT {
            self.min_y
        } else {
            SCREEN_HEIGHT
        };
        let max_x = if self.max_x < SCREEN_WIDTH {
            self.max_x
        } else {
            SCREEN_WIDTH
        };
        let max_y = if self.max_y < SCREEN_HEIGHT {
            self.max_y
        } else {
            SCREEN_HEIGHT
        };
        if max_x <= x || max_y <= y {
            return None;
        }
        Some((x, y, max_x - x, max_y - y))
    }

    /// Reset to the clean state.
    pub fn clear(&mut self)
        ensures
            *final(self) == (DirtyRect {
                min_x: u32::MAX,
                min_y: u32::MAX,
                max_x: 0,
                max_y: 0,
                dirty: false,
            }),
    {
        self.min_x = u32::MAX;
        self.min_y = u32::MAX;
        self.max_x = 0;
        self.max_y = 0;
        self.dirty = false;
    }

    /// Whether any region is marked dirty.
    pub fn is_dirty(&self) -> (r: bool)
        ensures
            r == self.dirty,
    {
        self.dirty
    }
}

/// The clipped bounding box that [`DirtyRect::bounds`] reports.
pub open spec fn spec_bounds(d: DirtyRect) -> Option<(u32, u32, u32, u32)> {
    if !d.dirty {
        None
    } else {
        let x = if d.min_x < SCREEN_WIDTH {
            d.min_x
        } else {
            SCREEN_WIDTH
        };
        let y = if d.min_y < SCREEN_HEIGHT {
            d.min_y
        } else {
            SCREEN_HEIGHT
        };
        let mx = if d.max_x < SCREEN_WIDTH {
            d.max_x
        } else {
            SCREEN_WIDTH
        };
        let my = if d.max_y < SCREEN_HEIGHT {
            d.max_y
        } else {
            SCREEN_HEIGHT
        };
        if mx <= x || my <= y {
            None
        } else {
            Some(((x, y, (mx - x) as u32, (my - y) as u32)))
        }
    }
}

impl Default for DirtyRect {
    /// Same as [`DirtyRect::new`].
    fn default() -> (r: Self)
        ensures
            r == (DirtyRect {
                min_x: u32::MAX,
                min_y: u32::MAX,
                max_x: 0,
                max_y: 0,
                dirty: false,
            }),
    {
        DirtyRect::new()
    }
}

/// Layer index for the compositor.
#[derive(Debug, Clone, Copy, PartialEq, Eq, Structural)]
pub enum Layer {
    /// Background layer (drawn first, behind everything).
    Background,
    /// Content layer (main application content).
    Content,
    /// Overlay layer (drawn last, on top of everything).
    Overlay,
}

/// Number of compositing layers.
pub const NUM_LAYERS: usize = 3;

/// Per-layer dirty state and enablement for a three-layer compositor.
/// The blits themselves run outside the library; the compositor says which
/// regions need copying and clears them once copied.
pub struct LayerCompositor {
    /// Pixel format of all layers.
    pub format: DisplayPixelFormat,
    /// Dirty tracking for the background layer.
    pub dirty_background: DirtyRect,
    /// Dirty tracking for the content layer.
    pub dirty_content: DirtyRect,
    /// Dirty tracking for the overlay layer.
    pub dirty_overlay: DirtyRect,
    /// Whether the background layer is drawn.
    pub enabled_background: bool,
    /// Whether the content layer is drawn.
    pub enabled_content: bool,
    /// Whether the overlay layer is drawn.
    pub enabled_overlay: bool,
}

/// The dirty tracker a compositor holds for a layer.
pub open spec fn spec_layer_dirty(c: LayerCompositor, layer: Layer) -> DirtyRect {
    match layer {
        Layer::Background => c.dirty_background,
        Layer::Content => c.dirty_content,
        Layer::Overlay => c.dirty_overlay,
    }
}

/// Whether a compositor draws a layer.
pub open spec fn spec_layer_enabled(c: LayerCompositor, layer: Layer) -> bool {
    match layer {
        Layer::Background => c.enabled_background,
        Layer::Content => c.enabled_content,
        Layer::Overlay => c.enabled_overlay,
    }
}

impl LayerCompositor {
    /// A fresh compositor: every layer enabled and clean.
    pub fn new(format: DisplayPixelFormat) -> (r: Self)
        ensures
            r.format == format,
            forall|l: Layer| spec_layer_dirty(r, l) == DirtyRect::new_spec(),
            forall|l: Layer| spec_layer_enabled(r, l),
    {
        LayerCompositor {
            format,
            dirty_background: DirtyRect::new(),
            dirty_content: DirtyRect::new(),
            dirty_overlay: DirtyRect::new(),
            enabled_background: true,
            enabled_content: true,
            enabled_overlay: true,
        }
    }

    /// Mark a rectangle of one layer dirty; the other layers are untouched.
    pub fn mark_dirty(&mut self, layer: Layer, x: u32, y: u32, w: u32, h: u32)
        requires
            x + w <= u32::MAX,
            y + h <= u32::MAX,
        ensures
            spec_layer_dirty(*final(self), layer).dirty,
            forall|l: Layer|
                l != layer ==> spec_layer_dirty(*final(self), l) == spec_layer_dirty(
                    *old(self),
                    l,
                ),
            forall|l: Layer|
                spec_layer_enabled(*final(self), l) == spec_layer_enabled(*old(self), l),
            final(self).format == old(self).format,
    {
        match layer {
            Layer::Background => self.dirty_background.mark(x, y, w, h),
            Layer::Content => self.dirty_content.mark(x, y, w, h),
            Layer::Overlay => self.dirty_overlay.mark(x, y, w, h),
        }
    }

    /// Mark an entire layer dirty.
    pub fn mark_layer_dirty(&mut self, layer: Layer)
        ensures
            spec_layer_dirty(*final(self), layer).dirty,
            forall|l: Layer|
                l != layer ==> spec_layer_dirty(*final(self), l) == spec_layer_dirty(
                    *old(self),
                    l,
                ),
            forall|l: Layer|
                spec_layer_enabled(*final(self), l) == spec_layer_enabled(*old(self), l),
            final(self).format == old(self).format,
    {
        match layer {
            Layer::Background => self.dirty_background.mark_all(),
            Layer::Content => self.dirty_content.mark_all(),
            Layer::Overlay => self.dirty_overlay.mark_all(),
        }
    }

    /// Enable or disable one layer.
    pub fn set_layer_enabled(&mut self, layer: Layer, enabled: bool)
        ensures
            spec_layer_enabled(*final(self), layer) == enabled,
            forall|l: Layer|
                l != layer ==> spec_layer_enabled(*final(self), l) == spec_layer_enabled(
                    *old(self),
                    l,
                ),
            forall|l: Layer| spec_layer_dirty(*final(self), l) == spec_layer_dirty(*old(self), l),
            final(self).format == old(self).format,
    {
        match layer {
            Layer::Background => self.enabled_background = enabled,
            Layer::Content => self.enabled_content = enabled,
            Layer::Overlay => self.enabled_overlay = enabled,
        }
    }

    /// Whether a layer is drawn.
    pub fn is_layer_enabled(&self, layer: Layer) -> (r: bool)
        ensures
            r == spec_layer_enabled(*self, layer),
    {
        match layer {
            Layer::Background => self.enabled_background,
            Layer::Content => self.enabled_content,
            Layer::Overlay => self.enabled_overlay,
        }
    }

    /// Clear the dirty flags of every layer.
    pub fn clear_all_dirty(&mut self)
        ensures
            forall|l: Layer| spec_layer_dirty(*final(self), l) == DirtyRect::new_spec(),
            forall|l: Layer|
                spec_layer_enabled(*final(self), l) == spec_layer_enabled(*old(self), l),
            final(self).format == old(self).format,
    {
        self.dirty_background.clear();
        self.dirty_content.clear();
        self.dirty_overlay.clear();
    }

    /// The pixel format.
    pub fn format(&self) -> (r: DisplayPixelFormat)
        ensures
            r == self.format,
    {
        self.format
    }
}

impl DirtyRect {
    /// The clean tracker as a value, for specifications.
    pub open spec fn new_spec() -> DirtyRect {
        DirtyRect { min_x: u32::MAX, min_y: u32::MAX, max_x: 0, max_y: 0, dirty: false }
    }
}

} // verus!
