//! Platform support library for a handheld MIPS console, centred on a
//! verified multi-channel PCM audio mixing engine.
//!
//! The heart of the crate is [`audio_mixer`]: a fixed-channel-count mixer
//! that applies per-stream volume, panning and fade envelopes, and combines
//! the streams into one interleaved stereo buffer with saturating,
//! wraparound-free arithmetic. The remaining modules model the surrounding
//! platform services (timing, file metadata, framebuffer bookkeeping,
//! input, simple parsers) as plain-value state machines; the raw device
//! calls themselves live outside this library, which receives their results
//! as ordinary values.

pub mod audio;
pub mod audio_mixer;
pub mod audiocodec;
pub mod callback;
pub mod config;
pub mod dialog;
pub mod display;
pub mod dma;
pub mod font;
pub mod framebuffer;
pub mod fs;
pub mod gu_ext;
pub mod hook;
pub mod http;
pub mod hw;
pub mod image;
pub mod input;
pub mod io;
pub mod me;
pub mod mem;
pub mod mp3;
pub mod net;
pub mod os;
pub mod osk;
pub mod power;
pub mod rtc;
pub mod savedata;
pub mod stdio;
pub mod sync;
pub mod system_param;
pub mod thread;
pub mod time;
pub mod timer;
pub mod usb;
pub mod vram_alloc;
pub mod wlan;
