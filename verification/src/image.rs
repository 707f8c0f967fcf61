//! Image decoding: uncompressed 24/32-bit BMP in software.
//!
//! Hardware JPEG decoding and file loading run on the platform outside
//! this library; the BMP path is pure byte work and lives here, with the
//! exact source-to-output pixel mapping in its contract.

use vstd::prelude::*;

verus! {

/// Pixel format of decoded image data.
#[derive(Debug, Clone, Copy, PartialEq, Eq, Structural)]
pub enum PixelFormat {
    /// 4 bytes per pixel: R, G, B, A.
    Rgba8888,
    /// 3 bytes per pixel: R, G, B.
    Rgb888,
}

/// A decoded image in memory.
pub struct DecodedImage {
    /// Width in pixels.
    pub width: u32,
    /// Height in pixels.
    pub height: u32,
    /// Layout of `data`.
    pub format: PixelFormat,
    /// The pixel bytes, row by row from the top.
    pub data: Vec<u8>,
}

/// Error from an image operation.
#[derive(Debug, Clone, Copy)]
pub enum ImageError {
    /// Could not determine the image format from the magic bytes.
    UnknownFormat,
    /// Hardware JPEG decode error (raw device code).
    JpegError(i32),
    /// BMP parsing error.
    InvalidBmp(&'static str),
    /// I/O error loading from a file.
    Io(crate::io::IoError),
}

/// The image container a byte stream announces through its magic bytes.
#[derive(Debug, Clone, Copy, PartialEq, Eq, Structural)]
pub enum ImageFormat {
    /// Starts with the JPEG start-of-image marker.
    Jpeg,
    /// Starts with the BM bitmap magic.
    Bmp,
    /// Neither magic present.
    Unknown,
}

/// The container the magic bytes announce: the JPEG start-of-image marker,
/// the BM bitmap magic, or neither.
pub open spec fn spec_detect_format(d: Seq<u8>) -> ImageFormat {
    if d.len() >= 2 && d[0] == 0xFFu8 && d[1] == 0xD8u8 {
        ImageFormat::Jpeg
    } else if d.len() >= 2 && d[0] == 66u8 && d[1] == 77u8 {
        ImageFormat::Bmp
    } else {
        ImageFormat::Unknown
    }
}

/// Detect the image container from the magic bytes. Decoding then routes
/// to the hardware JPEG path or the software BMP path.
pub fn detect_format(data: &[u8]) -> (r: ImageFormat)
    ensures
        r == spec_detect_format(data@),
{
    if data.len() >= 2 {
        if data[0] == 0xFF && data[1] == 0xD8 {
            return ImageFormat::Jpeg;
        }
        if data[0] == 66 && data[1] == 77 {
            return ImageFormat::Bmp;
        }
    }
    ImageFormat::Unknown
}

/// A little-endian 16-bit value at `off`.
pub open spec fn spec_le16(d: Seq<u8>, off: int) -> int {
    d[off] + 0x100 * d[off + 1]
}

/// A little-endian 32-bit value at `off`.
pub open spec fn spec_le32(d: Seq<u8>, off: int) -> int {
    d[off] + 0x100 * d[off + 1] + 0x10000 * d[off + 2] + 0x1000000 * d[off + 3]
}

/// A little-endian signed 32-bit value at `off`.
pub open spec fn spec_le32_signed(d: Seq<u8>, off: int) -> int {
    let v = spec_le32(d, off);
    if v >= 0x8000_0000 {
        v - 0x1_0000_0000
    } else {
        v
    }
}

fn read_u16_le(data: &[u8], offset: usize) -> (r: u16)
    requires
        offset + 2 <= data@.len(),
    ensures
        r == spec_le16(data@, offset as int),
{
    (data[offset] as u16) + 0x100 * (data[offset + 1] as u16)
}

fn read_u32_le(data: &[u8], offset: usize) -> (r: u32)
    requires
        offset + 4 <= data@.len(),
    ensures
        r == spec_le32(data@, offset as int),
{
    (data[offset] as u32) + 0x100 * (data[offset + 1] as u32) + 0x10000 * (data[offset + 2] as u32)
        + 0x1000000 * (data[offset + 3] as u32)
}

fn read_i32_le(data: &[u8], offset: usize) -> (r: i32)
    requires
        offset + 4 <= data@.len(),
    ensures
        r == spec_le32_signed(data@, offset as int),
{
    let v = read_u32_le(data, offset);
    if v >= 0x8000_0000 {
        ((v as i64) - 0x1_0000_0000) as i32
    } else {
        v as i32
    }
}

/// The row stride of a BMP: rows are padded to 32-bit boundaries.
pub open spec fn spec_bmp_stride(width: int, bpp: int) -> int {
    ((width * bpp + 31) / 32) * 4
}

/// Whether a BMP header is valid for this decoder: large enough, the BM
/// magic, an info header of at least 40 bytes, positive in-range
/// dimensions, no compression and 24 or 32 bits per pixel.
pub open spec fn spec_bmp_header_ok(d: Seq<u8>) -> bool {
    &&& d.len() >= 54
    &&& d[0] == 66u8
    &&& d[1] == 77u8
    &&& spec_le32(d, 14) >= 40
    &&& spec_le32_signed(d, 18) > 0
    &&& spec_le32_signed(d, 22) != 0
    &&& spec_le32_signed(d, 22) != -0x8000_0000
    &&& spec_le32(d, 30) == 0
    &&& (spec_le16(d, 28) == 24 || spec_le16(d, 28) == 32)
}

/// A BMP's height in rows: the magnitude of the signed height field.
pub open spec fn spec_bmp_height(d: Seq<u8>) -> int {
    let h = spec_le32_signed(d, 22);
    if h < 0 {
        -h
    } else {
        h
    }
}

/// Whether the rows are stored top-down (negative height field).
pub open spec fn spec_bmp_top_down(d: Seq<u8>) -> bool {
    spec_le32_signed(d, 22) < 0
}

/// The byte index in the BMP file where the pixel at output row `y`,
/// column `x` starts: bottom-up files store the last output row first.
pub open spec fn spec_bmp_src_index(d: Seq<u8>, y: int, x: int) -> int {
    let width = spec_le32_signed(d, 18);
    let bpp = spec_le16(d, 28);
    let height = spec_bmp_height(d);
    let src_y = if spec_bmp_top_down(d) {
        y
    } else {
        height - 1 - y
    };
    spec_le32(d, 10) + src_y * spec_bmp_stride(width, bpp) + x * (bpp / 8)
}

/// The decoded byte size a BMP's header asks for.
pub open spec fn spec_bmp_out_size(d: Seq<u8>) -> int {
    spec_le32_signed(d, 18) * spec_bmp_height(d) * (spec_le16(d, 28) / 8)
}

/// Whether every pixel row of the BMP lies inside the data.
pub open spec fn spec_bmp_rows_in_bounds(d: Seq<u8>) -> bool {
    forall|y: int|
        0 <= y < spec_bmp_height(d) ==> #[trigger] spec_bmp_src_index(d, y, 0)
            + spec_le32_signed(d, 18) * (spec_le16(d, 28) / 8) <= d.len()
}

/// Decode an uncompressed 24-bit or 32-bit BMP.
///
/// On success the output holds `width * height` pixels row by row from
/// the top, each pixel's blue-green-red source bytes swizzled to
/// red-green-blue (plus alpha for 32-bit files). Each failure names the
/// header defect; a file whose pixel rows run past the end of the data is
/// rejected, as is one whose decoded size would not fit the 32-bit size
/// arithmetic.
pub fn decode_bmp(data: &[u8]) -> (r: Result<DecodedImage, ImageError>)
    ensures
        r matches Ok(img) ==> {
            &&& spec_bmp_header_ok(data@)
            &&& spec_bmp_rows_in_bounds(data@)
            &&& img.width == spec_le32_signed(data@, 18)
            &&& img.height == spec_bmp_height(data@)
            &&& img.format == (if spec_le16(data@, 28) == 32 {
                PixelFormat::Rgba8888
            } else {
                PixelFormat::Rgb888
            })
            &&& img.data@.len() == img.width * img.height * (if spec_le16(data@, 28) == 32 {
                4int
            } else {
                3int
            })
            &&& forall|y: int, x: int|
                0 <= y < img.height && 0 <= x < img.width ==> {
                    let si = #[trigger] spec_bmp_src_index(data@, y, x);
                    let ob = if spec_le16(data@, 28) == 32 {
                        4int
                    } else {
                        3int
                    };
                    let di = (y * img.width + x) * ob;
                    &&& img.data@[di] == data@[si + 2]
                    &&& img.data@[di + 1] == data@[si + 1]
                    &&& img.data@[di + 2] == data@[si]
                    &&& (ob == 4 ==> img.data@[di + 3] == data@[si + 3])
                }
        },
        !spec_bmp_header_ok(data@) ==> (r matches Err(e) && e is InvalidBmp),
        spec_bmp_header_ok(data@) && spec_bmp_out_size(data@) > 0xFFFF_FFFF ==> (r matches Err(
            ImageError::InvalidBmp(m),
        ) && m@ == "image too large"@),
        spec_bmp_header_ok(data@) && spec_bmp_out_size(data@) <= 0xFFFF_FFFF
            && !spec_bmp_rows_in_bounds(data@) ==> (r matches Err(e) && e matches
            ImageError::InvalidBmp(m) && m@ == "unexpected end of data"@),
        data@.len() < 54 ==> (r matches Err(ImageError::InvalidBmp(m)) && m@ == "file too small"@),
        data@.len() >= 54 && (data@[0] != 66 || data@[1] != 77) ==> (r matches Err(
            ImageError::InvalidBmp(m),
        ) && m@ == "bad magic"@),
        data@.len() >= 54 && data@[0] == 66 && data@[1] == 77 && spec_le32(data@, 14) < 40 ==> (r
            matches Err(ImageError::InvalidBmp(m)) && m@ == "unsupported DIB header"@),
        data@.len() >= 54 && data@[0] == 66 && data@[1] == 77 && spec_le32(data@, 14) >= 40 && (
        spec_le32_signed(data@, 18) <= 0 || spec_le32_signed(data@, 22) == 0 || spec_le32_signed(
            data@,
            22,
        ) == -0x8000_0000) ==> (r matches Err(ImageError::InvalidBmp(m)) && m@
            == "invalid dimensions"@),
        data@.len() >= 54 && data@[0] == 66 && data@[1] == 77 && spec_le32(data@, 14) >= 40
            && spec_le32_signed(data@, 18) > 0 && spec_le32_signed(data@, 22) != 0
            && spec_le32_signed(data@, 22) != -0x8000_0000 && spec_le32(data@, 30) != 0 ==> (r
            matches Err(ImageError::InvalidBmp(m)) && m@ == "compressed BMPs not supported"@),
        data@.len() >= 54 && data@[0] == 66 && data@[1] == 77 && spec_le32(data@, 14) >= 40
            && spec_le32_signed(data@, 18) > 0 && spec_le32_signed(data@, 22) != 0
            && spec_le32_signed(data@, 22) != -0x8000_0000 && spec_le32(data@, 30) == 0 && spec_le16(
            data@,
            28,
        ) != 24 && spec_le16(data@, 28) != 32 ==> (r matches Err(ImageError::InvalidBmp(m)) && m@
            == "only 24/32-bit supported"@),
{
    if data.len() < 54 {
        return Err(ImageError::InvalidBmp("file too small"));
    }
    if data[0] != 66 || data[1] != 77 {
        return Err(ImageError::InvalidBmp("bad magic"));
    }
    let data_offset: u64 = read_u32_le(data, 10) as u64;
    let dib_size = read_u32_le(data, 14);
    if dib_size < 40 {
        return Err(ImageError::InvalidBmp("unsupported DIB header"));
    }
    let width_raw = read_i32_le(data, 18);
    let height_raw = read_i32_le(data, 22);
    let top_down = height_raw < 0;
    if width_raw <= 0 || height_raw == 0 || height_raw == -0x8000_0000 {
        return Err(ImageError::InvalidBmp("invalid dimensions"));
    }
    let width: u64 = width_raw as u64;
    let height: u64 = if top_down {
        (-(height_raw as i64)) as u64
    } else {
        height_raw as u64
    };
    let bpp: u16 = read_u16_le(data, 28);
    let compression = read_u32_le(data, 30);
    if compression != 0 {
        return Err(ImageError::InvalidBmp("compressed BMPs not supported"));
    }
    let (format, out_bpp): (PixelFormat, u64) = match bpp {
        24 => (PixelFormat::Rgb888, 3u64),
        32 => (PixelFormat::Rgba8888, 4u64),
        _ => {
            return Err(ImageError::InvalidBmp("only 24/32-bit supported"));
        },
    };
    proof {
        assert(width * height <= 0x3FFF_FFFF_8000_0000u64) by (nonlinear_arith)
            requires
                0 <= width <= 0x7FFF_FFFFu64 && 0 <= height <= 0x8000_0000u64,
        ;
        assert(width * height * out_bpp <= 0xFFFF_FFFE_0000_0000u64) by (nonlinear_arith)
            requires
                0 <= width * height <= 0x3FFF_FFFF_8000_0000u64 && 0 <= out_bpp <= 4,
        ;
    }
    let pixels: u64 = width * height;
    let out_size: u64 = pixels * out_bpp;
    if out_size > 0xFFFF_FFFFu64 {
        return Err(ImageError::InvalidBmp("image too large"));
    }
    let src_bpp: u64 = (bpp as u64) / 8;
    proof {
        assert(width * (bpp as u64) <= 0x10_0000_0000u64) by (nonlinear_arith)
            requires
                0 <= width <= 0x7FFF_FFFFu64 && 0 <= bpp <= 32,
        ;
    }
    let row_stride: u64 = ((width * (bpp as u64) + 31) / 32) * 4;
    proof {
        assert(row_stride == spec_bmp_stride(width as int, bpp as int));
    }
    let dlen: u64 = data.len() as u64;
    let mut output: Vec<u8> = alloc_zeroed(out_size as usize);
    let ghost d = data@;
    let mut y: u64 = 0;
    while y < height
        invariant
            data@ == d,
            spec_bmp_header_ok(d),
            width == spec_le32_signed(d, 18),
            height == spec_bmp_height(d),
            top_down == spec_bmp_top_down(d),
            bpp == spec_le16(d, 28),
            bpp == 24 || bpp == 32,
            out_bpp == bpp / 8,
            src_bpp == out_bpp,
            data_offset == spec_le32(d, 10),
            row_stride == spec_bmp_stride(width as int, bpp as int),
            pixels == width * height,
            out_size == pixels * out_bpp,
            out_size <= 0xFFFF_FFFFu64,
            output@.len() == out_size,
            dlen == d.len(),
            y <= height,
            format == (if bpp == 32 {
                PixelFormat::Rgba8888
            } else {
                PixelFormat::Rgb888
            }),
            forall|yy: int|
                0 <= yy < y ==> #[trigger] spec_bmp_src_index(d, yy, 0) + width * src_bpp
                    <= d.len(),
            forall|yy: int, x: int|
                0 <= yy < y && 0 <= x < width ==> {
                    let si = #[trigger] spec_bmp_src_index(d, yy, x);
                    let di = (yy * width + x) * out_bpp;
                    &&& output@[di] == d[si + 2]
                    &&& output@[di + 1] == d[si + 1]
                    &&& output@[di + 2] == d[si]
                    &&& (out_bpp == 4 ==> output@[di + 3] == d[si + 3])
                },
        decreases height - y,
    {
        let src_y: u64 = if top_down {
            y
        } else {
            height - 1 - y
        };
        proof {
            lemma_row_bounds(width as int, height as int, src_y as int, row_stride as int, bpp as int, pixels as int);
        }
        let src_offset: u64 = data_offset + src_y * row_stride;
        let row_bytes: u64 = width * src_bpp;
        if src_offset + row_bytes > dlen {
            proof {
                assert(spec_bmp_src_index(d, y as int, 0) == src_offset);
                assert(!spec_bmp_rows_in_bounds(d));
            }
            return Err(ImageError::InvalidBmp("unexpected end of data"));
        }
        let mut x: u64 = 0;
        while x < width
            invariant
                data@ == d,
                spec_bmp_header_ok(d),
                width == spec_le32_signed(d, 18),
                height == spec_bmp_height(d),
                top_down == spec_bmp_top_down(d),
                bpp == spec_le16(d, 28),
                bpp == 24 || bpp == 32,
                out_bpp == bpp / 8,
                src_bpp == out_bpp,
                data_offset == spec_le32(d, 10),
                row_stride == spec_bmp_stride(width as int, bpp as int),
                pixels == width * height,
                out_size == pixels * out_bpp,
                out_size <= 0xFFFF_FFFFu64,
                output@.len() == out_size,
                y < height,
                x <= width,
                src_y == (if top_down {
                    y as int
                } else {
                    height - 1 - y
                }),
                src_offset == data_offset + src_y * row_stride,
                row_bytes == width * src_bpp,
                dlen == d.len(),
                src_offset + row_bytes <= dlen,
                format == (if bpp == 32 {
                    PixelFormat::Rgba8888
                } else {
                    PixelFormat::Rgb888
                }),
                forall|yy: int|
                    0 <= yy < y ==> #[trigger] spec_bmp_src_index(d, yy, 0) + width * src_bpp
                        <= d.len(),
                forall|yy: int, xx: int|
                    0 <= yy < y && 0 <= xx < width ==> {
                        let si = #[trigger] spec_bmp_src_index(d, yy, xx);
                        let di = (yy * width + xx) * out_bpp;
                        &&& output@[di] == d[si + 2]
                        &&& output@[di + 1] == d[si + 1]
                        &&& output@[di + 2] == d[si]
                        &&& (out_bpp == 4 ==> output@[di + 3] == d[si + 3])
                    },
                forall|xx: int|
                    0 <= xx < x ==> {
                        let si = #[trigger] spec_bmp_src_index(d, y as int, xx);
                        let di = (y * width + xx) * out_bpp;
                        &&& output@[di] == d[si + 2]
                        &&& output@[di + 1] == d[si + 1]
                        &&& output@[di + 2] == d[si]
                        &&& (out_bpp == 4 ==> output@[di + 3] == d[si + 3])
                    },
            decreases width - x,
        {
            proof {
                lemma_pixel_bounds(
                    width as int,
                    height as int,
                    y as int,
                    x as int,
                    out_bpp as int,
                    pixels as int,
                );
                assert(x * src_bpp + src_bpp <= row_bytes) by (nonlinear_arith)
                    requires
                        0 <= x < width && row_bytes == width * src_bpp && src_bpp >= 1,
                ;
                assert(spec_bmp_src_index(d, y as int, x as int) == src_offset + x * src_bpp);
            }
            let si: usize = (src_offset + x * src_bpp) as usize;
            let di: usize = ((y * width + x) * out_bpp) as usize;
            let ghost out_prev = output@;
            let b = data[si];
            let g = data[si + 1];
            let rr = data[si + 2];
            output[di] = rr;
            output[di + 1] = g;
            output[di + 2] = b;
            if bpp == 32 {
                let a = data[si + 3];
                output[di + 3] = a;
            }
            proof {
                assert forall|yy: int, xx: int| 0 <= yy < y && 0 <= xx < width implies {
                    let s2 = #[trigger] spec_bmp_src_index(d, yy, xx);
                    let d2 = (yy * width + xx) * out_bpp;
                    &&& output@[d2] == d[s2 + 2]
                    &&& output@[d2 + 1] == d[s2 + 1]
                    &&& output@[d2 + 2] == d[s2]
                    &&& (out_bpp == 4 ==> output@[d2 + 3] == d[s2 + 3])
                } by {
                    lemma_pixel_disjoint(
                        width as int,
                        out_bpp as int,
                        yy,
                        xx,
                        y as int,
                        x as int,
                    );
                }
                assert forall|xx: int| 0 <= xx < x implies {
                    let s2 = #[trigger] spec_bmp_src_index(d, y as int, xx);
                    let d2 = (y * width + xx) * out_bpp;
                    &&& output@[d2] == d[s2 + 2]
                    &&& output@[d2 + 1] == d[s2 + 1]
                    &&& output@[d2 + 2] == d[s2]
                    &&& (out_bpp == 4 ==> output@[d2 + 3] == d[s2 + 3])
                } by {
                    lemma_pixel_disjoint(
                        width as int,
                        out_bpp as int,
                        y as int,
                        xx,
                        y as int,
                        x as int,
                    );
                }
                assert(output@[di as int] == d[si + 2]);
                assert(output@[di + 1] == d[si + 1]);
                assert(output@[di + 2] == d[si as int]);
            }
            x = x + 1;
        }
        y = y + 1;
    }
    proof {
        assert forall|yy: int| 0 <= yy < spec_bmp_height(d) implies #[trigger] spec_bmp_src_index(
            d,
            yy,
            0,
        ) + spec_le32_signed(d, 18) * (spec_le16(d, 28) / 8) <= d.len() by {
            assert(spec_bmp_src_index(d, yy, 0) + width * src_bpp <= d.len());
        }
    }
    Ok(
        DecodedImage {
            width: width_raw as u32,
            height: (height as u32),
            format,
            data: output,
        },
    )
}

/// A zero-filled byte buffer of the given length.
fn alloc_zeroed(n: usize) -> (r: Vec<u8>)
    ensures
        r@.len() == n,
        forall|i: int| 0 <= i < n ==> r@[i] == 0u8,
{
    let mut v: Vec<u8> = Vec::new();
    let mut i: usize = 0;
    while i < n
        invariant
            i <= n,
            v@.len() == i,
            forall|j: int| 0 <= j < i ==> v@[j] == 0u8,
        decreases n - i,
    {
        v.push(0);
        i = i + 1;
    }
    v
}

/// Row offsets stay inside 64-bit arithmetic: with the decoded size
/// capped, a row's start is at most four times the pixel count plus the
/// padding, far below the overflow bound.
proof fn lemma_row_bounds(width: int, height: int, src_y: int, stride: int, bpp: int, pixels: int)
    requires
        width >= 1,
        height >= 1,
        0 <= src_y < height,
        bpp == 24 || bpp == 32,
        stride == spec_bmp_stride(width, bpp),
        pixels == width * height,
        pixels * (bpp / 8) <= 0xFFFF_FFFF,
    ensures
        stride <= 4 * width + 4,
        src_y * stride <= 4 * pixels + 4 * height,
        src_y * stride <= 0x8_0000_0000,
{
    assert(width * bpp + 31 <= width * 32 + 31) by (nonlinear_arith)
        requires
            width >= 1 && (bpp == 24 || bpp == 32),
    ;
    vstd::arithmetic::div_mod::lemma_div_is_ordered(width * bpp + 31, width * 32 + 31, 32);
    assert((width * 32 + 31) / 32 == width) by {
        vstd::arithmetic::div_mod::lemma_fundamental_div_mod_converse(
            width * 32 + 31,
            32,
            width,
            31,
        );
    }
    assert(stride <= 4 * width + 4);
    assert(src_y * stride <= height * (4 * width + 4)) by (nonlinear_arith)
        requires
            0 <= src_y < height && 0 <= stride <= 4 * width + 4,
    ;
    assert(height * (4 * width + 4) == 4 * pixels + 4 * height) by (nonlinear_arith)
        requires
            pixels == width * height,
    ;
    assert(height <= pixels) by (nonlinear_arith)
        requires
            width >= 1 && height >= 1 && pixels == width * height,
    ;
    assert(pixels <= 0xFFFF_FFFF) by (nonlinear_arith)
        requires
            pixels * (bpp / 8) <= 0xFFFF_FFFF && (bpp == 24 || bpp == 32) && pixels >= 0,
    ;
}

/// Output bytes of distinct pixels do not overlap: an earlier pixel's
/// bytes end before a later pixel's bytes begin.
proof fn lemma_pixel_disjoint(width: int, ob: int, yy: int, xx: int, y: int, x: int)
    requires
        width >= 1,
        0 <= yy,
        0 <= xx < width,
        0 <= x < width,
        yy < y || (yy == y && xx < x),
        ob == 3 || ob == 4,
    ensures
        (yy * width + xx) * ob + ob <= (y * width + x) * ob,
{
    assert(yy * width + xx < y * width + x) by (nonlinear_arith)
        requires
            width >= 1 && 0 <= yy && 0 <= xx < width && 0 <= x < width && (yy < y || (yy == y && xx
                < x)),
    ;
    assert((yy * width + xx) * ob + ob <= (y * width + x) * ob) by (nonlinear_arith)
        requires
            yy * width + xx < y * width + x && (ob == 3 || ob == 4),
    ;
}

/// Pixel indices stay inside the output buffer: the flattened index of an
/// in-range pixel is below the pixel count, so its bytes end inside the
/// decoded size.
proof fn lemma_pixel_bounds(width: int, height: int, y: int, x: int, ob: int, pixels: int)
    requires
        width >= 1,
        height >= 1,
        0 <= y < height,
        0 <= x < width,
        ob == 3 || ob == 4,
        pixels == width * height,
    ensures
        0 <= y * width + x < pixels,
        (y * width + x) * ob + ob <= pixels * ob,
        x * ob <= x * 4,
        x * 3 <= x * 4,
{
    assert(y * width + x < pixels) by (nonlinear_arith)
        requires
            0 <= y < height && 0 <= x < width && pixels == width * height,
    ;
    assert(y * width >= 0) by (nonlinear_arith)
        requires
            y >= 0 && width >= 0,
    ;
    assert((y * width + x) * ob + ob <= pixels * ob) by (nonlinear_arith)
        requires
            0 <= y * width + x < pixels && (ob == 3 || ob == 4),
    ;
    assert(x * 3 <= x * 4) by (nonlinear_arith)
        requires
            x >= 0,
    ;
}

} // verus!
