//! Video RAM bump allocator.
//!
//! Allocations are served sequentially from the start of VRAM;
//! [`SimpleVramAllocator::free_all`] resets the whole arena. The total
//! VRAM size is a property of the device, queried outside this library and
//! handed to the constructor; chunks are plain offset/length pairs, and
//! turning them into device pointers is likewise platform work.

use vstd::prelude::*;

verus! {

/// The allocator singleton was already taken.
#[derive(Debug, Clone, Copy, PartialEq, Eq, Structural)]
pub struct VramAllocatorInUseError {}

/// Errors returned by VRAM allocation operations.
#[derive(Debug, Clone, Copy, PartialEq, Eq, Structural)]
pub enum VramAllocError {
    /// Not enough VRAM remaining for the requested allocation.
    OutOfMemory {
        /// The size that was asked for.
        requested: u32,
        /// How much was still free.
        available: u32,
    },
    /// The given texture pixel format is not supported by the allocator.
    UnsupportedPixelFormat,
    /// Integer overflow computing an allocation size.
    Overflow,
}

/// Texture pixel formats the graphics core knows.
#[derive(Debug, Clone, Copy, PartialEq, Eq, Structural)]
pub enum TexturePixelFormat {
    /// 16-bit, 5:6:5.
    Psm5650,
    /// 16-bit, 5:5:5:1.
    Psm5551,
    /// 16-bit, 4:4:4:4.
    Psm4444,
    /// 32-bit, 8:8:8:8.
    Psm8888,
    /// 4-bit indexed.
    PsmT4,
    /// 8-bit indexed.
    PsmT8,
    /// 16-bit indexed.
    PsmT16,
    /// 32-bit indexed.
    PsmT32,
    /// Compressed, 4x4 blocks.
    PsmDxt1,
    /// Compressed, 4x4 blocks with alpha.
    PsmDxt3,
    /// Compressed, 4x4 blocks with interpolated alpha.
    PsmDxt5,
}

/// A chunk of VRAM: an offset from the start of VRAM and a length.
#[derive(Debug, Clone, Copy, PartialEq, Eq, Structural)]
pub struct VramMemChunk {
    /// Offset from the start of VRAM.
    pub start: u32,
    /// Length in bytes.
    pub len: u32,
}

impl VramMemChunk {
    /// The chunk's length in bytes.
    pub fn len(&self) -> (r: u32)
        ensures
            r == self.len,
    {
        self.len
    }

    /// Whether the chunk is empty.
    pub fn is_empty(&self) -> (r: bool)
        ensures
            r == (self.len == 0),
    {
        self.len == 0
    }
}

/// A dead-simple VRAM bump allocator over a fixed-size arena.
#[derive(Debug)]
pub struct SimpleVramAllocator {
    /// How many bytes are already allocated.
    pub offset: u32,
    /// Total VRAM size in bytes, as the device reports it.
    pub total: u32,
}

impl SimpleVramAllocator {
    /// The allocator never hands out more than the arena holds.
    pub open spec fn wf(self) -> bool {
        self.offset <= self.total
    }

    /// A fresh allocator over an arena of `total` bytes (the device's
    /// reported VRAM size).
    pub fn new(total: u32) -> (r: Self)
        ensures
            r.offset == 0,
            r.total == total,
            r.wf(),
    {
        SimpleVramAllocator { offset: 0, total }
    }

    /// Frees all previously allocated chunks by resetting the counter.
    /// The contents of VRAM are unchanged.
    pub fn free_all(&mut self)
        ensures
            final(self).offset == 0,
            final(self).total == old(self).total,
            final(self).wf(),
    {
        self.offset = 0;
    }

    /// Allocate `size` bytes: the chunk starts where the previous one
    /// ended. Fails with OutOfMemory when the arena cannot hold it, and
    /// with Overflow when the new end does not even fit in the counter.
    pub fn allocate(&mut self, size: u32) -> (r: Result<VramMemChunk, VramAllocError>)
        requires
            old(self).wf(),
        ensures
            final(self).wf(),
            final(self).total == old(self).total,
            old(self).offset + size <= old(self).total ==> (r == Ok::<VramMemChunk, VramAllocError>(
                VramMemChunk { start: old(self).offset, len: size },
            ) && final(self).offset == old(self).offset + size),
            old(self).offset + size > u32::MAX ==> (r == Err::<VramMemChunk, VramAllocError>(
                VramAllocError::Overflow,
            ) && final(self).offset == old(self).offset),
            old(self).offset + size <= u32::MAX && old(self).offset + size > old(self).total ==> (r
                == Err::<VramMemChunk, VramAllocError>(
                VramAllocError::OutOfMemory {
                    requested: size,
                    available: (old(self).total - old(self).offset) as u32,
                },
            ) && final(self).offset == old(self).offset),
    {
        if size > u32::MAX - self.offset {
            return Err(VramAllocError::Overflow);
        }
        let new_offset = self.offset + size;
        if new_offset > self.total {
            return Err(
                VramAllocError::OutOfMemory { requested: size, available: self.total - self.offset },
            );
        }
        let start = self.offset;
        self.offset = new_offset;
        Ok(VramMemChunk { start, len: size })
    }

    /// Allocate space for `count` elements of `elem_size` bytes each.
    pub fn alloc_sized(&mut self, elem_size: u32, count: u32) -> (r: Result<
        VramMemChunk,
        VramAllocError,
    >)
        requires
            old(self).wf(),
        ensures
            final(self).wf(),
            final(self).total == old(self).total,
            elem_size * count > u32::MAX ==> r == Err::<VramMemChunk, VramAllocError>(
                VramAllocError::Overflow,
            ) && final(self).offset == old(self).offset,
            elem_size * count <= u32::MAX && old(self).offset + elem_size * count <= old(
                self,
            ).total ==> (r == Ok::<VramMemChunk, VramAllocError>(
                VramMemChunk { start: old(self).offset, len: (elem_size * count) as u32 },
            ) && final(self).offset == old(self).offset + elem_size * count),
    {
        let size = match elem_size.checked_mul(count) {
            Some(s) => s,
            None => {
                return Err(VramAllocError::Overflow);
            },
        };
        self.allocate(size)
    }

    /// Allocate space for a texture of the given dimensions and format.
    pub fn alloc_texture_pixels(&mut self, width: u32, height: u32, psm: TexturePixelFormat) -> (r:
        Result<VramMemChunk, VramAllocError>)
        requires
            old(self).wf(),
        ensures
            final(self).wf(),
            final(self).total == old(self).total,
            spec_texture_size(width, height, psm) matches Err(e) ==> r == Err::<
                VramMemChunk,
                VramAllocError,
            >(e) && final(self).offset == old(self).offset,
            spec_texture_size(width, height, psm) matches Ok(size) ==> (old(self).offset + size
                <= old(self).total ==> (r == Ok::<VramMemChunk, VramAllocError>(
                VramMemChunk { start: old(self).offset, len: size },
            ) && final(self).offset == old(self).offset + size)),
    {
        let size = match texture_size(width, height, psm) {
            Ok(s) => s,
            Err(e) => {
                return Err(e);
            },
        };
        self.allocate(size)
    }
}

/// The byte size of a texture: pixels halved for the 4-bit format, as is
/// for 8-bit, doubled for the 16-bit formats and quadrupled for the
/// 32-bit ones; compressed formats are not supported, and a size that
/// does not fit the 32-bit counter is an overflow.
pub open spec fn spec_texture_size(width: u32, height: u32, psm: TexturePixelFormat) -> Result<
    u32,
    VramAllocError,
> {
    if width * height > u32::MAX {
        Err(VramAllocError::Overflow)
    } else {
        let pixels = width * height;
        match psm {
            TexturePixelFormat::PsmT4 => Ok(((pixels / 2) as u32)),
            TexturePixelFormat::PsmT8 => Ok((pixels as u32)),
            TexturePixelFormat::Psm5650 | TexturePixelFormat::Psm5551 | TexturePixelFormat::Psm4444
                | TexturePixelFormat::PsmT16 => if pixels * 2 > u32::MAX {
                Err(VramAllocError::Overflow)
            } else {
                Ok(((pixels * 2) as u32))
            },
            TexturePixelFormat::Psm8888 | TexturePixelFormat::PsmT32 => if pixels * 4 > u32::MAX {
                Err(VramAllocError::Overflow)
            } else {
                Ok(((pixels * 4) as u32))
            },
            _ => Err(VramAllocError::UnsupportedPixelFormat),
        }
    }
}

/// The byte size of a texture, as [`spec_texture_size`] lays it down.
pub fn texture_size(width: u32, height: u32, psm: TexturePixelFormat) -> (r: Result<
    u32,
    VramAllocError,
>)
    ensures
        r == spec_texture_size(width, height, psm),
{
    let pixels = match width.checked_mul(height) {
        Some(p) => p,
        None => {
            return Err(VramAllocError::Overflow);
        },
    };
    proof {
        assert(pixels >> 1u32 == pixels / 2) by (bit_vector);
    }
    match psm {
        TexturePixelFormat::PsmT4 => Ok(pixels >> 1),
        TexturePixelFormat::PsmT8 => Ok(pixels),
        TexturePixelFormat::Psm5650 | TexturePixelFormat::Psm5551 | TexturePixelFormat::Psm4444
            | TexturePixelFormat::PsmT16 => match pixels.checked_mul(2) {
            Some(s) => Ok(s),
            None => Err(VramAllocError::Overflow),
        },
        TexturePixelFormat::Psm8888 | TexturePixelFormat::PsmT32 => match pixels.checked_mul(4) {
            Some(s) => Ok(s),
            None => Err(VramAllocError::Overflow),
        },
        TexturePixelFormat::PsmDxt1 | TexturePixelFormat::PsmDxt3 | TexturePixelFormat::PsmDxt5 => {
            Err(VramAllocError::UnsupportedPixelFormat)
        },
    }
}

} // verus!
