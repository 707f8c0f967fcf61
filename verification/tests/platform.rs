use psp::audio::{align_sample_count, AudioChannel, AudioError, AudioFormat, SrcChannel};
use psp::audiocodec::{AudiocodecDecoder, CodecType};
use psp::dialog::{
    MessageDialogBuilder, SystemParamLanguage, UtilityMsgDialogMode, MSG_OPT_ERROR, MSG_OPT_TEXT,
    MSG_OPT_YES_NO_BUTTONS,
};
use psp::dma::DmaTransfer;
use psp::framebuffer::{
    bytes_per_pixel, framebuffer_size, DirtyRect, DisplayPixelFormat, DoubleBuffer, Layer,
    LayerCompositor,
};
use psp::fs::{
    datetime_to_system_time, symlink, unsupported_err, FileAttr, FilePermissions, FileStat,
    FileType, FsError, OpenOptions, EPOCH_DIFF_SECS, O_CREAT, O_EXCL, O_RDONLY, O_RDWR, O_TRUNC,
    O_WRONLY,
};
use psp::hw::Register;
use psp::input::{Controller, CtrlButtons, SceCtrlData};
use psp::io::{DirEntry, IoError, IoStatMode, SceIoDirent, SceIoStat, SceUid};
use psp::me::{to_cached, to_uncached};
use psp::net::Ipv4Addr;
use psp::os::{decode_error_kind, errno, error_string, home_dir, is_interrupted, temp_dir, ErrorKind};
use psp::osk::{OskBuilder, SceUtilityOskInputType};
use psp::rtc::Tick;
use psp::savedata::Savedata;
use psp::stdio::{is_ebadf, panic_output, Stderr};
use psp::sync::SpscQueue;
use psp::thread::{ThreadBuilder, THREAD_ATTR_USER, THREAD_ATTR_VFPU};
use psp::time::{DateTime, Duration, Instant, SystemTime};
use psp::usb::UsbStorageMode;
use psp::vram_alloc::{SimpleVramAllocator, TexturePixelFormat, VramAllocError};
use psp::wlan::WlanStatus;

#[test]
fn audio_channel_records_the_grant() {
    let c = AudioChannel::from_reserve_result(2, align_sample_count(1000), AudioFormat::Stereo)
        .unwrap();
    assert_eq!(c.channel_id(), 2);
    assert_eq!(c.sample_count(), 1024);
    assert_eq!(c.format(), AudioFormat::Stereo);
    assert_eq!(AudioFormat::Stereo.channels(), 2);
    assert_eq!(AudioFormat::Mono.channels(), 1);
    assert!(matches!(
        AudioChannel::from_reserve_result(-3, 64, AudioFormat::Mono),
        Err(AudioError(-3))
    ));
    let s = SrcChannel::from_reserve_result(0, 1152).unwrap();
    assert_eq!(s.sample_count(), 1152);
}

#[test]
fn codec_kinds_carry_their_platform_ids() {
    assert_eq!(CodecType::At3Plus.code(), 0x1000);
    assert_eq!(CodecType::At3.code(), 0x1001);
    assert_eq!(CodecType::Mp3.code(), 0x1002);
    assert_eq!(CodecType::Aac.code(), 0x1003);
    let d = AudiocodecDecoder {
        codec_type: CodecType::Mp3,
        max_frame_size: 1152,
        needed_mem: 0x8000,
        edram_allocated: true,
    };
    assert_eq!(d.codec_type(), CodecType::Mp3);
    assert_eq!(d.max_frame_size(), 1152);
    assert_eq!(d.needed_mem(), 0x8000);
}

#[test]
fn dirty_rect_tracks_the_bounding_box() {
    let mut d = DirtyRect::new();
    assert!(!d.is_dirty());
    assert_eq!(d.bounds(), None);
    d.mark(10, 20, 100, 50);
    d.mark(200, 100, 80, 30);
    assert!(d.is_dirty());
    assert_eq!(d.bounds(), Some((10, 20, 270, 110)));
    d.clear();
    assert!(!d.is_dirty());
    assert_eq!(d.bounds(), None);
}

#[test]
fn dirty_rect_clips_to_the_screen() {
    let mut d = DirtyRect::new();
    d.mark(470, 260, 100, 100);
    assert_eq!(d.bounds(), Some((470, 260, 10, 12)));
    let mut d = DirtyRect::new();
    d.mark(480, 0, 10, 10);
    assert_eq!(d.bounds(), None);
    let mut d = DirtyRect::new();
    d.mark_all();
    assert_eq!(d.bounds(), Some((0, 0, 480, 272)));
}

#[test]
fn double_buffer_flips_between_two_offsets() {
    assert_eq!(bytes_per_pixel(DisplayPixelFormat::Psm8888), 4);
    assert_eq!(bytes_per_pixel(DisplayPixelFormat::Psm5650), 2);
    assert_eq!(framebuffer_size(DisplayPixelFormat::Psm8888), 512 * 272 * 4);
    let mut db = DoubleBuffer::new(DisplayPixelFormat::Psm8888, true);
    let fb = framebuffer_size(DisplayPixelFormat::Psm8888);
    assert_eq!(db.display_buffer_offset(), 0);
    assert_eq!(db.draw_buffer_offset(), fb);
    let shown = db.swap();
    assert_eq!(shown, fb);
    assert_eq!(db.draw_buffer_offset(), 0);
    db.set_vsync(false);
    assert_eq!(db.format(), DisplayPixelFormat::Psm8888);
}

#[test]
fn layer_compositor_tracks_layers_independently() {
    let mut c = LayerCompositor::new(DisplayPixelFormat::Psm8888);
    assert!(c.is_layer_enabled(Layer::Overlay));
    c.set_layer_enabled(Layer::Overlay, false);
    assert!(!c.is_layer_enabled(Layer::Overlay));
    assert!(c.is_layer_enabled(Layer::Background));
    c.mark_dirty(Layer::Content, 1, 2, 3, 4);
    assert!(c.dirty_content.is_dirty());
    assert!(!c.dirty_background.is_dirty());
    c.mark_layer_dirty(Layer::Background);
    assert!(c.dirty_background.is_dirty());
    c.clear_all_dirty();
    assert!(!c.dirty_background.is_dirty() && !c.dirty_content.is_dirty());
    assert_eq!(c.format(), DisplayPixelFormat::Psm8888);
}

#[test]
fn durations_convert_between_units() {
    assert_eq!(Duration::from_millis(3).as_micros(), 3000);
    assert_eq!(Duration::from_secs(2).as_micros(), 2_000_000);
    assert_eq!(Duration::from_micros(1999).as_millis(), 1);
    assert_eq!(
        Duration::from_micros(5).checked_add(Duration::from_micros(7)),
        Some(Duration::from_micros(12))
    );
    assert_eq!(Duration::from_micros(5).checked_sub(Duration::from_micros(7)), None);
    assert_eq!(Duration::from_micros(u64::MAX).checked_add(Duration::from_micros(1)), None);
}

#[test]
fn instants_subtract_saturating_at_zero() {
    let a = Instant::from_ticks(1000);
    let b = Instant::from_ticks(1500);
    assert_eq!(b.duration_since(a).as_micros(), 500);
    assert_eq!(a.duration_since(b).as_micros(), 0);
    assert_eq!(a.as_ticks(), 1000);
    assert_eq!(b.checked_sub_instant(&a), Some(Duration::from_micros(500)));
    assert_eq!(a.checked_sub_instant(&b), None);
    assert_eq!(
        a.checked_add_duration(&Duration::from_micros(1)),
        Some(Instant::from_ticks(1001))
    );
    assert_eq!(a.checked_sub_duration(&Duration::from_micros(2000)), None);
}

#[test]
fn system_times_subtract_in_both_directions() {
    let t1 = SystemTime::from_micros(100);
    let t2 = SystemTime::from_micros(250);
    assert_eq!(t2.sub_time(&t1), Ok(Duration::from_micros(150)));
    assert_eq!(t1.sub_time(&t2), Err(Duration::from_micros(150)));
    assert_eq!(t1.checked_add_duration(&Duration::from_micros(1)), Some(SystemTime::from_micros(101)));
    assert_eq!(t1.checked_sub_duration(&Duration::from_micros(101)), None);
}

#[test]
fn datetime_getters_expose_the_clock_fields() {
    let dt = DateTime::from_fields(2021, 6, 5, 13, 59, 58, 123456);
    assert_eq!(dt.year(), 2021);
    assert_eq!(dt.month(), 6);
    assert_eq!(dt.day(), 5);
    assert_eq!(dt.hour(), 13);
    assert_eq!(dt.minute(), 59);
    assert_eq!(dt.second(), 58);
    assert_eq!(dt.microsecond(), 123456);
}

#[test]
fn stat_timestamps_convert_to_wall_clock_time() {
    // The Unix epoch itself.
    let epoch = DateTime::from_fields(1970, 1, 1, 0, 0, 0, 0);
    assert_eq!(datetime_to_system_time(&epoch).micros, EPOCH_DIFF_SECS * 1_000_000);
    // 2000-01-01 00:00:00 is 946684800 seconds past the Unix epoch.
    let y2k = DateTime::from_fields(2000, 1, 1, 0, 0, 0, 0);
    assert_eq!(
        datetime_to_system_time(&y2k).micros,
        (EPOCH_DIFF_SECS + 946_684_800) * 1_000_000
    );
    // Sub-second parts are kept after the epoch.
    let t = DateTime::from_fields(1970, 1, 1, 0, 0, 1, 250_000);
    assert_eq!(
        datetime_to_system_time(&t).micros,
        EPOCH_DIFF_SECS * 1_000_000 + 1_250_000
    );
    // An unset (all-zero) timestamp denotes the Unix epoch.
    let unset = DateTime::from_fields(0, 0, 0, 0, 0, 0, 0);
    assert_eq!(datetime_to_system_time(&unset).micros, EPOCH_DIFF_SECS * 1_000_000);
    // A day before the Unix epoch.
    let before = DateTime::from_fields(1969, 12, 31, 0, 0, 0, 0);
    assert_eq!(
        datetime_to_system_time(&before).micros,
        (EPOCH_DIFF_SECS - 86_400) * 1_000_000
    );
}

#[test]
fn open_options_compose_the_platform_flags() {
    let mut o = OpenOptions::new();
    assert_eq!(o.open_flags(), O_RDONLY);
    o.write(true);
    assert_eq!(o.open_flags(), O_WRONLY);
    o.read(true);
    assert_eq!(o.open_flags(), O_RDWR);
    o.truncate(true);
    o.create(true);
    assert_eq!(o.open_flags(), O_RDWR | O_TRUNC | O_CREAT);
    let mut o = OpenOptions::new();
    o.write(true);
    o.create_new(true);
    assert_eq!(o.open_flags(), O_WRONLY | O_CREAT | O_EXCL);
}

#[test]
fn file_metadata_reads_the_stat_bits() {
    let zero = DateTime::from_fields(0, 0, 0, 0, 0, 0, 0);
    let stat = FileStat { mode: 0x2000 | 0x0002, attr: 0, size: 12345, ctime: zero, atime: zero, mtime: zero };
    let attr = FileAttr { stat };
    assert_eq!(attr.size(), 12345);
    assert!(attr.file_type().is_file());
    assert!(!attr.file_type().is_dir());
    assert!(!attr.file_type().is_symlink());
    assert!(!attr.perm().readonly());
    let mut p = FilePermissions { mode: 0x2000 };
    assert!(p.readonly());
    p.set_readonly(false);
    assert!(!p.readonly());
    p.set_readonly(true);
    assert!(p.readonly());
    let dir = FileType { mode: 0x1000 };
    assert!(dir.is_dir() && !dir.is_file());
}

#[test]
fn unsupported_filesystem_calls_fail_uniformly() {
    assert_eq!(unsupported_err(), FsError::Unsupported);
    assert_eq!(symlink(b"a", b"b"), Err(FsError::Unsupported));
    assert_eq!(psp::fs::readlink(b"a"), Err(FsError::Unsupported));
    assert_eq!(psp::fs::canonicalize(b"a"), Err(FsError::Unsupported));
    assert_eq!(psp::os::getcwd(), Err(FsError::Unsupported));
    assert_eq!(psp::os::current_exe(), Err(FsError::Unsupported));
    let f = psp::fs::File::from_open_result(4).unwrap();
    assert_eq!(f.fsync(), Ok(()));
    assert_eq!(f.lock(), Err(FsError::Unsupported));
    assert_eq!(f.duplicate().err(), Some(FsError::Unsupported));
    assert_eq!(f.size(), None);
    assert!(!f.is_read_vectored() && !f.is_write_vectored());
    assert_eq!(psp::fs::File::from_open_result(-2).err(), Some(FsError::Os(-2)));
}

#[test]
fn paths_gain_a_nul_terminator() {
    let b = psp::fs::path_to_cstr(b"ms0:/x").unwrap();
    assert_eq!(b, b"ms0:/x\0".to_vec());
    let long = vec![b'a'; 256];
    assert_eq!(psp::fs::path_to_cstr(&long), Err(FsError::PathTooLong));
}

#[test]
fn dir_entries_join_paths_and_read_types() {
    let zero = DateTime::from_fields(0, 0, 0, 0, 0, 0, 0);
    let stat = FileStat { mode: 0x1000, attr: 0, size: 0, ctime: zero, atime: zero, mtime: zero };
    let e = psp::fs::DirEntry { name: b"SAVE".to_vec(), root: b"ms0:/PSP".to_vec(), stat };
    assert_eq!(e.path(), b"ms0:/PSP/SAVE".to_vec());
    assert_eq!(e.file_name(), b"SAVE".to_vec());
    assert!(e.file_type().unwrap().is_dir());
    let e2 = psp::fs::DirEntry { name: b"SAVE".to_vec(), root: b"ms0:/PSP/".to_vec(), stat };
    assert_eq!(e2.path(), b"ms0:/PSP/SAVE".to_vec());
}

#[test]
fn raw_dir_entries_stop_names_at_the_nul() {
    let stat = SceIoStat { st_mode: IoStatMode(0x2000), st_attr: 0, st_size: 9 };
    let mut name = b"FILE.BIN".to_vec();
    name.push(0);
    name.push(b'x');
    let e = DirEntry { dirent: SceIoDirent { d_stat: stat, d_name: name } };
    assert_eq!(e.name(), b"FILE.BIN".to_vec());
    assert!(e.is_file() && !e.is_dir());
    assert_eq!(e.stat().st_size, 9);
}

#[test]
fn io_paths_and_errors_round_trip() {
    let b = psp::io::path_to_cstr("ms0:/y").unwrap();
    assert_eq!(b, b"ms0:/y\0".to_vec());
    let long: String = core::iter::repeat('a').take(256).collect();
    assert_eq!(psp::io::path_to_cstr(&long), Err(IoError(psp::io::ERR_NAME_TOO_LONG)));
    assert_eq!(IoError(-5).code(), -5);
    let f = psp::io::File::from_open_result(SceUid(7)).unwrap();
    assert_eq!(f.fd(), SceUid(7));
}

#[test]
fn error_codes_decode_by_magnitude() {
    assert_eq!(errno(), 0);
    assert!(!is_interrupted(5));
    assert_eq!(decode_error_kind(2), ErrorKind::NotFound);
    assert_eq!(decode_error_kind(-2), ErrorKind::NotFound);
    assert_eq!(decode_error_kind(13), ErrorKind::PermissionDenied);
    assert_eq!(decode_error_kind(17), ErrorKind::AlreadyExists);
    assert_eq!(decode_error_kind(22), ErrorKind::InvalidInput);
    assert_eq!(decode_error_kind(12), ErrorKind::OutOfMemory);
    assert_eq!(decode_error_kind(28), ErrorKind::StorageFull);
    assert_eq!(decode_error_kind(99), ErrorKind::Uncategorized);
    assert_eq!(error_string(0x1Au32 as i32), "PSP error code 0x0000001A");
    assert_eq!(error_string(0xDEADBEEFu32 as i32), "PSP error code 0xDEADBEEF");
    assert_eq!(temp_dir(), "ms0:/PSP/TEMP");
    assert_eq!(home_dir(), Some("ms0:/PSP/GAME"));
    assert_eq!(psp::os::join_paths(&Vec::<String>::new()).err(), Some(psp::os::JoinPathsError));
}

#[test]
fn controller_detects_presses_and_releases() {
    let cross = CtrlButtons(0x4000);
    let mut c = Controller::new();
    assert!(!c.is_held(cross));
    c.update(SceCtrlData { buttons: cross, lx: 128, ly: 200 });
    assert!(c.is_held(cross));
    assert!(c.is_pressed(cross));
    assert!(!c.is_released(cross));
    assert_eq!(c.analog_y(), 200);
    c.update(SceCtrlData { buttons: cross, lx: 10, ly: 128 });
    assert!(c.is_held(cross) && !c.is_pressed(cross));
    c.update(SceCtrlData::neutral());
    assert!(c.is_released(cross));
    assert_eq!(c.analog_x(), 128);
    assert_eq!(c.raw().buttons, CtrlButtons(0));
    assert_eq!(c.raw_previous().buttons, cross);
}

#[test]
fn vram_allocator_bumps_and_resets() {
    let mut a = SimpleVramAllocator::new(1000);
    let c1 = a.allocate(400).unwrap();
    assert_eq!((c1.start, c1.len()), (0, 400));
    assert!(!c1.is_empty());
    let c2 = a.allocate(600).unwrap();
    assert_eq!((c2.start, c2.len()), (400, 600));
    match a.allocate(1) {
        Err(VramAllocError::OutOfMemory { requested, available }) => {
            assert_eq!((requested, available), (1, 0));
        },
        _ => panic!("expected out of memory"),
    }
    a.free_all();
    let c3 = a.allocate(1000).unwrap();
    assert_eq!(c3.start, 0);
    let mut b = SimpleVramAllocator::new(u32::MAX);
    b.allocate(10).unwrap();
    assert!(matches!(b.allocate(u32::MAX), Err(VramAllocError::Overflow)));
}

#[test]
fn texture_sizes_follow_the_pixel_format() {
    let mut a = SimpleVramAllocator::new(0x200000);
    let c = a.alloc_texture_pixels(16, 16, TexturePixelFormat::Psm8888).unwrap();
    assert_eq!(c.len(), 16 * 16 * 4);
    let c = a.alloc_texture_pixels(16, 16, TexturePixelFormat::Psm5650).unwrap();
    assert_eq!(c.len(), 16 * 16 * 2);
    let c = a.alloc_texture_pixels(3, 3, TexturePixelFormat::PsmT4).unwrap();
    assert_eq!(c.len(), 4);
    assert!(matches!(
        a.alloc_texture_pixels(4, 4, TexturePixelFormat::PsmDxt1),
        Err(VramAllocError::UnsupportedPixelFormat)
    ));
    let c = a.alloc_sized(4, 10).unwrap();
    assert_eq!(c.len(), 40);
}

#[test]
fn spsc_queue_is_first_in_first_out() {
    let mut q: SpscQueue<u32> = SpscQueue::new(4);
    assert!(q.is_empty());
    assert_eq!(q.capacity(), 4);
    assert_eq!(q.pop(), None);
    q.push(1).unwrap();
    q.push(2).unwrap();
    q.push(3).unwrap();
    q.push(4).unwrap();
    assert_eq!(q.len(), 4);
    assert_eq!(q.push(5), Err(5));
    assert_eq!(q.pop(), Some(1));
    q.push(5).unwrap();
    assert_eq!(q.pop(), Some(2));
    assert_eq!(q.pop(), Some(3));
    assert_eq!(q.pop(), Some(4));
    assert_eq!(q.pop(), Some(5));
    assert_eq!(q.pop(), None);
    assert!(q.is_empty());
}

#[test]
fn dialog_builder_assembles_options() {
    let b = MessageDialogBuilder::new("hello");
    assert_eq!(b.options.0, MSG_OPT_TEXT);
    assert_eq!(b.mode, UtilityMsgDialogMode::Text);
    assert_eq!(&b.message[..5], b"hello");
    assert_eq!(b.message.len(), 512);
    assert!(b.message[5..].iter().all(|&x| x == 0));
    let b = b.yes_no();
    assert_eq!(b.options.0, MSG_OPT_TEXT | MSG_OPT_YES_NO_BUTTONS);
    let b = b.language(SystemParamLanguage::French);
    assert_eq!(b.language, SystemParamLanguage::French);
    let b = b.error_mode(0x80420000);
    assert_eq!(b.mode, UtilityMsgDialogMode::Error);
    assert_eq!(b.options.0, MSG_OPT_ERROR);
    assert_eq!(b.error_value, 0x80420000);
}

#[test]
fn osk_builder_collects_the_session_settings() {
    let b = OskBuilder::new("enter name")
        .max_chars(16)
        .initial_text("abc")
        .input_type(SceUtilityOskInputType::LatinDigit);
    assert_eq!(b.prompt, "enter name");
    assert_eq!(b.initial, "abc");
    assert_eq!(b.max_chars, 16);
    assert_eq!(b.input_type, SceUtilityOskInputType::LatinDigit);
}

#[test]
fn thread_builder_defaults_and_setters() {
    let b = ThreadBuilder::new(b"worker\0");
    assert_eq!(b.priority, 32);
    assert_eq!(b.stack_size, 65536);
    assert_eq!(b.attributes.0, THREAD_ATTR_USER | THREAD_ATTR_VFPU);
    assert!(b.name_terminated());
    let b = b.priority(16).stack_size(4096);
    assert_eq!((b.priority, b.stack_size), (16, 4096));
    assert!(!ThreadBuilder::new(b"raw").name_terminated());
    assert_eq!(psp::thread::ThreadError(-9).code(), -9);
}

#[test]
fn savedata_builder_pads_its_buffers() {
    let s = Savedata::new(b"MYAPP00000\0\0\0").title("My Save").detail("details here");
    assert_eq!(s.game_name, b"MYAPP00000\0\0\0".to_vec());
    assert_eq!(s.title.len(), 128);
    assert_eq!(&s.title[..7], b"My Save");
    assert!(s.title[7..].iter().all(|&x| x == 0));
    assert_eq!(s.detail.len(), 1024);
    assert_eq!(&s.detail[..12], b"details here");
    // Long titles truncate at 127 bytes.
    let long: String = core::iter::repeat('t').take(300).collect();
    let s = Savedata::new(b"MYAPP00000\0\0\0").title(&long);
    assert_eq!(s.title.len(), 128);
    assert!(s.title[..127].iter().all(|&x| x == b't'));
    assert_eq!(s.title[127], 0);
}

#[test]
fn small_platform_records_report_their_state() {
    assert_eq!(Ipv4Addr(192, 168, 0, 1).to_u32_be(), 0xC0A80001);
    assert_eq!(to_uncached(0x0880_0000), 0x4880_0000);
    assert_eq!(to_cached(0x4880_0000), 0x0880_0000);
    let r = Register::new(0xBC00_0004);
    assert_eq!(r.addr(), 0xBC00_0004);
    assert_eq!(Tick(5).compare(Tick(9)), -1);
    assert_eq!(Tick(9).compare(Tick(9)), 0);
    assert_eq!(Tick(10).compare(Tick(9)), 1);
    let t = DmaTransfer { dst: 0x100, size: 64, completed: false };
    assert_eq!((t.dst(), t.size(), t.is_complete()), (0x100, 64, false));
    let u = UsbStorageMode { established: true };
    assert!(u.is_mounted());
    let w = WlanStatus { power_on: true, switch_on: false, mac_address: [0; 6] };
    assert!(!w.is_usable());
    assert!(is_ebadf(&IoError(-1)));
    assert_eq!(panic_output(), Some(Stderr));
    let e = psp::me::MeExecutor { submitted: 0, busy: false };
    assert!(e.is_idle());
    assert_eq!(psp::http::HttpClient::from_template_result(5).unwrap().template_id(), 5);
    assert!(psp::http::HttpClient::from_template_result(-1).is_err());
}
