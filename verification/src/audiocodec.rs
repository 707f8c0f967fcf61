//! Hardware audio codec session state.
//!
//! The decoding itself runs on the platform's codec hardware outside this
//! library; the session records the codec kind and the sizes the hardware
//! reported when the session was set up.

use vstd::prelude::*;

verus! {

/// Audio codec kind.
#[derive(Debug, Clone, Copy, PartialEq, Eq, Structural)]
pub enum CodecType {
    /// ATRAC3plus.
    At3Plus,
    /// ATRAC3.
    At3,
    /// MPEG-1 Audio Layer III.
    Mp3,
    /// Advanced Audio Coding.
    Aac,
}

impl CodecType {
    /// The platform's numeric id for this codec.
    pub fn code(self) -> (r: i32)
        ensures
            r == spec_codec_code(self),
    {
        match self {
            CodecType::At3Plus => 0x1000,
            CodecType::At3 => 0x1001,
            CodecType::Mp3 => 0x1002,
            CodecType::Aac => 0x1003,
        }
    }
}

/// The platform's numeric id of a codec kind.
pub open spec fn spec_codec_code(c: CodecType) -> i32 {
    match c {
        CodecType::At3Plus => 0x1000i32,
        CodecType::At3 => 0x1001i32,
        CodecType::Mp3 => 0x1002i32,
        CodecType::Aac => 0x1003i32,
    }
}

/// Error from an audio codec operation, wrapping the raw device code.
#[derive(Debug, Clone, Copy, PartialEq, Eq, Structural)]
pub struct AudiocodecError(pub i32);

/// A hardware decoder session: the codec kind and the sizes the hardware
/// reported at setup.
pub struct AudiocodecDecoder {
    /// Which codec the session decodes.
    pub codec_type: CodecType,
    /// The largest compressed frame the codec produces.
    pub max_frame_size: u32,
    /// How much working memory the codec asked for.
    pub needed_mem: u32,
    /// Whether the codec's working memory was granted.
    pub edram_allocated: bool,
}

impl AudiocodecDecoder {
    /// Which codec the session decodes.
    pub fn codec_type(&self) -> (r: CodecType)
        ensures
            r == self.codec_type,
    {
        self.codec_type
    }

    /// The maximum compressed frame size the hardware reported.
    pub fn max_frame_size(&self) -> (r: u32)
        ensures
            r == self.max_frame_size,
    {
        self.max_frame_size
    }

    /// The working-memory size the hardware reported.
    pub fn needed_mem(&self) -> (r: u32)
        ensures
            r == self.needed_mem,
    {
        self.needed_mem
    }
}

/// Codec ids used by the media-engine decoding path.
#[derive(Debug, Clone, Copy, PartialEq, Eq, Structural)]
pub enum AudioCodec {
    /// ATRAC3plus.
    At3Plus,
    /// ATRAC3.
    At3,
    /// MPEG-1 Audio Layer III.
    Mp3,
    /// Advanced Audio Coding.
    Aac,
}

} // verus!
