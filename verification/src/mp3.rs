//! MP3 stream utilities: frame-sync search and ID3v2 tag skipping.
//!
//! The compressed-audio decoding itself runs on the platform's media
//! hardware outside this library; these helpers do the byte-level work of
//! locating the first real frame in a stream.

use vstd::prelude::*;

verus! {

/// Error from an MP3 decoding operation, wrapping the raw device code.
#[derive(Debug, Clone, Copy, PartialEq, Eq, Structural)]
pub struct Mp3Error(pub i32);

/// A hardware MP3 decoder session: the handle the platform granted and
/// whether the source stream has ended.
pub struct Mp3Decoder {
    /// The granted decoder handle.
    pub handle: i32,
    /// Whether the source stream is exhausted.
    pub eof: bool,
}

/// Whether a valid MP3 frame sync starts at `i`: 0xFF, then a byte with
/// the top three bits set whose MPEG-version field (bits 4..3) is not the
/// reserved value 1 and whose layer field (bits 2..1) is not the reserved
/// value 0.
pub open spec fn spec_is_sync_at(data: Seq<u8>, i: int) -> bool {
    &&& 0 <= i
    &&& i + 1 < data.len()
    &&& data[i] == 0xFFu8
    &&& data[i + 1] & 0xE0 == 0xE0u8
    &&& (data[i + 1] >> 3) & 0x03 != 0x01u8
    &&& (data[i + 1] >> 1) & 0x03 != 0x00u8
}

/// Find the next MP3 frame sync at or after `offset`: the lowest position
/// carrying a valid sync, or None when the rest of the data has none.
pub fn find_sync(data: &[u8], offset: usize) -> (r: Option<usize>)
    ensures
        r matches Some(i) ==> offset <= i && spec_is_sync_at(data@, i as int) && forall|j: int|
            offset <= j < i ==> !spec_is_sync_at(data@, j),
        r == None::<usize> ==> forall|j: int| offset <= j ==> !spec_is_sync_at(data@, j),
{
    let mut i = offset;
    while data.len() >= 1 && i < data.len() - 1
        invariant
            offset <= i,
            forall|j: int| offset <= j < i ==> !spec_is_sync_at(data@, j),
        decreases data@.len() - i,
    {
        if data[i] == 0xFF && (data[i + 1] & 0xE0) == 0xE0 {
            let version = (data[i + 1] >> 3) & 0x03;
            let layer = (data[i + 1] >> 1) & 0x03;
            if version != 0x01 && layer != 0x00 {
                return Some(i);
            }
        }
        i = i + 1;
    }
    None
}

/// The total size of a leading ID3v2 tag: its 10-byte header plus the
/// 28-bit synchsafe body size from header bytes 6 to 9, or 0 when the
/// data does not start with an ID3v2 header.
pub open spec fn spec_id3v2_len(data: Seq<u8>) -> int {
    if data.len() < 10 || data[0] != 73u8 || data[1] != 68u8 || data[2] != 51u8 {
        0
    } else {
        10 + (((data[6] & 0x7F) as usize) << 21usize) + (((data[7] & 0x7F) as usize) << 14usize) + (
        ((data[8] & 0x7F) as usize) << 7usize) + ((data[9] & 0x7F) as usize)
    }
}

/// Skip a leading ID3v2 tag: the byte offset just past the tag, or 0 when
/// no tag is present.
pub fn skip_id3v2(data: &[u8]) -> (r: usize)
    ensures
        r == spec_id3v2_len(data@),
{
    if data.len() < 10 || data[0] != 73 || data[1] != 68 || data[2] != 51 {
        return 0;
    }
    let d6: u8 = data[6];
    let d7: u8 = data[7];
    let d8: u8 = data[8];
    let d9: u8 = data[9];
    proof {
        assert((d6 & 0x7F) <= 0x7F && (d7 & 0x7F) <= 0x7F && (d8 & 0x7F) <= 0x7F && (d9 & 0x7F)
            <= 0x7F) by (bit_vector);
    }
    let b6: usize = (d6 & 0x7F) as usize;
    let b7: usize = (d7 & 0x7F) as usize;
    let b8: usize = (d8 & 0x7F) as usize;
    let b9: usize = (d9 & 0x7F) as usize;
    proof {
        assert((b6 << 21usize) <= 0xFE00000usize && (b7 << 14usize) <= 0x1FC000usize && (b8
            << 7usize) <= 0x3F80usize) by (bit_vector)
            requires
                b6 <= 0x7Fusize && b7 <= 0x7Fusize && b8 <= 0x7Fusize,
        ;
    }
    let size: usize = (b6 << 21) | (b7 << 14) | (b8 << 7) | b9;
    proof {
        assert((b6 << 21usize) | (b7 << 14usize) | (b8 << 7usize) | b9 == (b6 << 21usize) + (b7
            << 14usize) + (b8 << 7usize) + b9) by (bit_vector)
            requires
                b6 <= 0x7Fusize && b7 <= 0x7Fusize && b8 <= 0x7Fusize && b9 <= 0x7Fusize,
        ;
    }
    10 + size
}

} // verus!
