use psp::hook::{encode_j, extract_j_target, is_branch_or_jump};
use psp::image::{decode_bmp, detect_format, ImageError, ImageFormat, PixelFormat};
use psp::mp3::{find_sync, skip_id3v2};

fn bmp_header(width: i32, height: i32, bpp: u16, compression: u32, data_offset: u32) -> Vec<u8> {
    let mut h = vec![0u8; 54];
    h[0] = b'B';
    h[1] = b'M';
    h[10..14].copy_from_slice(&data_offset.to_le_bytes());
    h[14..18].copy_from_slice(&40u32.to_le_bytes());
    h[18..22].copy_from_slice(&width.to_le_bytes());
    h[22..26].copy_from_slice(&height.to_le_bytes());
    h[28..30].copy_from_slice(&bpp.to_le_bytes());
    h[30..34].copy_from_slice(&compression.to_le_bytes());
    h
}

fn invalid_bmp_message(r: Result<psp::image::DecodedImage, ImageError>) -> &'static str {
    match r {
        Err(ImageError::InvalidBmp(m)) => m,
        _ => panic!("expected an InvalidBmp error"),
    }
}

#[test]
fn bmp_too_small_and_bad_magic_are_rejected() {
    assert_eq!(invalid_bmp_message(decode_bmp(&[0u8; 10])), "file too small");
    let mut h = bmp_header(1, 1, 24, 0, 54);
    h[0] = b'X';
    assert_eq!(invalid_bmp_message(decode_bmp(&h)), "bad magic");
}

#[test]
fn bmp_header_defects_are_named() {
    let mut h = bmp_header(1, 1, 24, 0, 54);
    h[14..18].copy_from_slice(&12u32.to_le_bytes());
    assert_eq!(invalid_bmp_message(decode_bmp(&h)), "unsupported DIB header");

    let h = bmp_header(0, 1, 24, 0, 54);
    assert_eq!(invalid_bmp_message(decode_bmp(&h)), "invalid dimensions");
    let h = bmp_header(-3, 1, 24, 0, 54);
    assert_eq!(invalid_bmp_message(decode_bmp(&h)), "invalid dimensions");
    let h = bmp_header(1, 0, 24, 0, 54);
    assert_eq!(invalid_bmp_message(decode_bmp(&h)), "invalid dimensions");

    let h = bmp_header(1, 1, 24, 1, 54);
    assert_eq!(invalid_bmp_message(decode_bmp(&h)), "compressed BMPs not supported");

    let h = bmp_header(1, 1, 16, 0, 54);
    assert_eq!(invalid_bmp_message(decode_bmp(&h)), "only 24/32-bit supported");

    let h = bmp_header(2, 2, 24, 0, 54);
    assert_eq!(invalid_bmp_message(decode_bmp(&h)), "unexpected end of data");
}

#[test]
fn bmp_bottom_up_24_bit_decodes_with_bgr_swizzle() {
    // 2x2, bottom-up: the file's first row is the image's bottom row.
    // Row stride for width 2 at 24 bpp is 8 bytes (2 pixels + 2 pad).
    let mut f = bmp_header(2, 2, 24, 0, 54);
    // Bottom row: pixel (0,1) = BGR(1,2,3), pixel (1,1) = BGR(4,5,6).
    f.extend_from_slice(&[1, 2, 3, 4, 5, 6, 0, 0]);
    // Top row: pixel (0,0) = BGR(7,8,9), pixel (1,0) = BGR(10,11,12).
    f.extend_from_slice(&[7, 8, 9, 10, 11, 12, 0, 0]);
    let img = decode_bmp(&f).unwrap();
    assert_eq!(img.width, 2);
    assert_eq!(img.height, 2);
    assert_eq!(img.format, PixelFormat::Rgb888);
    // Output is top row first, RGB.
    assert_eq!(img.data, vec![9, 8, 7, 12, 11, 10, 3, 2, 1, 6, 5, 4]);
}

#[test]
fn bmp_top_down_32_bit_keeps_row_order_and_alpha() {
    // 1x2 top-down (negative height), 32 bpp: stride 4, no padding.
    let mut f = bmp_header(1, -2, 32, 0, 54);
    f.extend_from_slice(&[1, 2, 3, 200]);
    f.extend_from_slice(&[4, 5, 6, 201]);
    let img = decode_bmp(&f).unwrap();
    assert_eq!(img.width, 1);
    assert_eq!(img.height, 2);
    assert_eq!(img.format, PixelFormat::Rgba8888);
    assert_eq!(img.data, vec![3, 2, 1, 200, 6, 5, 4, 201]);
}

#[test]
fn find_sync_locates_the_first_valid_frame_header() {
    // 0xFF 0xFB is a valid MPEG-1 Layer III sync.
    let data = [0u8, 1, 0xFF, 0xFB, 0x90, 0x00];
    assert_eq!(find_sync(&data, 0), Some(2));
    assert_eq!(find_sync(&data, 2), Some(2));
    assert_eq!(find_sync(&data, 3), None);
    assert_eq!(find_sync(&[], 0), None);
}

#[test]
fn find_sync_filters_reserved_version_and_layer() {
    // 0xE8: version field is the reserved value 1.
    let reserved_version = [0xFFu8, 0xE8, 0xFF, 0xFB];
    assert_eq!(find_sync(&reserved_version, 0), Some(2));
    // 0xF9: layer field is the reserved value 0.
    let reserved_layer = [0xFFu8, 0xF9, 0xFF, 0xFB];
    assert_eq!(find_sync(&reserved_layer, 0), Some(2));
}

#[test]
fn skip_id3v2_reads_the_synchsafe_size() {
    // "ID3", version 4.0, no flags, synchsafe size 0x02 0x01 = 257.
    let data = [b'I', b'D', b'3', 4, 0, 0, 0, 0, 0x02, 0x01, 0xAA];
    assert_eq!(skip_id3v2(&data), 10 + 257);
    // No tag: offset 0.
    assert_eq!(skip_id3v2(&[0xFFu8, 0xFB, 0, 0, 0, 0, 0, 0, 0, 0]), 0);
    // Too short to hold a header.
    assert_eq!(skip_id3v2(&[b'I', b'D', b'3']), 0);
    // The synchsafe bytes ignore their top bits.
    let data = [b'I', b'D', b'3', 4, 0, 0, 0x80, 0x80, 0x82, 0x81, 0];
    assert_eq!(skip_id3v2(&data), 10 + 257);
}

#[test]
fn magic_bytes_name_the_container() {
    assert_eq!(detect_format(&[0xFF, 0xD8, 0xAA]), ImageFormat::Jpeg);
    assert_eq!(detect_format(&[b'B', b'M', 0, 0]), ImageFormat::Bmp);
    assert_eq!(detect_format(&[0x89, b'P']), ImageFormat::Unknown);
    assert_eq!(detect_format(&[0xFF]), ImageFormat::Unknown);
    assert_eq!(detect_format(&[]), ImageFormat::Unknown);
}

#[test]
fn jump_words_encode_and_decode() {
    // j 0x0880_0104 from the same 256 MiB segment round-trips.
    let word = encode_j(0x0880_0104);
    assert_eq!(word >> 26, 2);
    assert_eq!(extract_j_target(word, 0x0880_0000), Some(0x0880_0104));
    // The upper 4 address bits come from the program counter.
    assert_eq!(extract_j_target(word, 0x4880_0000), Some(0x4880_0104));
    // A non-jump word decodes to nothing: 0x03E00008 is `jr $ra`.
    assert_eq!(extract_j_target(0x03E0_0008, 0x0880_0000), None);
}

#[test]
fn relocatable_and_fixed_words_are_told_apart() {
    assert!(is_branch_or_jump(encode_j(0x0880_0000)));
    assert!(is_branch_or_jump(0x1000_0003)); // beq
    assert!(is_branch_or_jump(0x0C20_0041)); // jal
    assert!(!is_branch_or_jump(0x0000_0000)); // nop (special, opcode 0)
    assert!(!is_branch_or_jump(0x2402_0001)); // addiu (opcode 9)
    assert!(!is_branch_or_jump(0x03E0_0008)); // jr $ra (special, opcode 0)
}
