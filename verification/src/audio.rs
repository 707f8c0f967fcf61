//! Audio channel bookkeeping for the hardware PCM channels.
//!
//! [`AudioChannel`] and [`SrcChannel`] record the state of a reserved
//! hardware output channel (its id, buffer length and format). Reserving
//! and releasing the physical channel is platform work done outside this
//! library; the granted channel id is handed in as a plain value.

use vstd::prelude::*;

verus! {

/// Audio output format.
#[derive(Debug, Clone, Copy, PartialEq, Eq, Structural)]
pub enum AudioFormat {
    /// Stereo interleaved (L, R, L, R, ...).
    Stereo,
    /// Mono output.
    Mono,
}

impl AudioFormat {
    /// Number of i16 elements per sample frame (2 for stereo, 1 for mono).
    pub fn channels(self) -> (r: usize)
        ensures
            r == spec_channels(self),
    {
        match self {
            AudioFormat::Stereo => 2,
            AudioFormat::Mono => 1,
        }
    }
}

/// Elements per sample frame for a format.
pub open spec fn spec_channels(f: AudioFormat) -> usize {
    match f {
        AudioFormat::Stereo => 2usize,
        AudioFormat::Mono => 1usize,
    }
}

/// Error from an audio operation, wrapping the raw device error code.
#[derive(Debug, Clone, Copy, PartialEq, Eq, Structural)]
pub struct AudioError(pub i32);

/// Rounding a sample count up to the next multiple of 64.
pub open spec fn spec_align_sample_count(count: int) -> int {
    ((count + 63) / 64) * 64
}

/// Align a sample count to the hardware requirement (multiple of 64,
/// rounding up).
pub fn align_sample_count(count: i32) -> (r: i32)
    requires
        0 <= count,
        count + 63 <= i32::MAX,
    ensures
        r == spec_align_sample_count(count as int),
        r % 64 == 0,
        count <= r < count + 64,
{
    let bumped: u32 = count as u32 + 63;
    let aligned: u32 = (bumped / 64) * 64;
    proof {
        let c = count as int;
        vstd::arithmetic::div_mod::lemma_fundamental_div_mod(c + 63, 64);
        vstd::arithmetic::div_mod::lemma_mod_bound(c + 63, 64);
        assert(((c + 63) / 64) * 64 == (c + 63) - (c + 63) % 64);
        assert((((c + 63) / 64) * 64) % 64 == 0) by {
            vstd::arithmetic::div_mod::lemma_mod_multiples_basic((c + 63) / 64, 64);
        }
    }
    aligned as i32
}

/// A reserved hardware audio channel: the channel id granted by the
/// platform, together with the buffer length and format it was reserved
/// with. The reservation call itself happens outside the library.
pub struct AudioChannel {
    /// The channel id the platform granted.
    pub channel: i32,
    /// Sample frames per output call (64-aligned).
    pub sample_count: i32,
    /// Output format the channel was reserved with.
    pub format: AudioFormat,
}

impl AudioChannel {
    /// Record a reservation outcome. `granted` is the raw result of the
    /// platform's channel-reserve call: a channel id when non-negative,
    /// an error code when negative. `sample_count` must already be
    /// 64-aligned (the reservation is made with the aligned count).
    pub fn from_reserve_result(granted: i32, sample_count: i32, format: AudioFormat) -> (r: Result<
        Self,
        AudioError,
    >)
        ensures
            granted >= 0 ==> (r matches Ok(c) && c.channel == granted && c.sample_count
                == sample_count && c.format == format),
            granted < 0 ==> r == Err::<Self, AudioError>(AudioError(granted)),
    {
        if granted < 0 {
            Err(AudioError(granted))
        } else {
            Ok(AudioChannel { channel: granted, sample_count, format })
        }
    }

    /// The raw channel number.
    pub fn channel_id(&self) -> (r: i32)
        ensures
            r == self.channel,
    {
        self.channel
    }

    /// The sample count per output call.
    pub fn sample_count(&self) -> (r: i32)
        ensures
            r == self.sample_count,
    {
        self.sample_count
    }

    /// The audio format (stereo or mono).
    pub fn format(&self) -> (r: AudioFormat)
        ensures
            r == self.format,
    {
        self.format
    }
}

/// Output frequency for the sample-rate-conversion channel.
#[derive(Debug, Clone, Copy, PartialEq, Eq, Structural)]
pub enum OutputFrequency {
    Khz48,
    Khz44_1,
    Khz32,
    Khz24,
    Khz22_05,
    Khz16,
    Khz12,
    Khz11_025,
    Khz8,
}

/// The reserved global sample-rate-conversion channel. There is a single
/// such channel; reserving it is platform work done outside the library.
pub struct SrcChannel {
    /// Sample frames per output call.
    pub sample_count: i32,
}

impl SrcChannel {
    /// Record a reservation outcome, as [`AudioChannel::from_reserve_result`]
    /// does for the regular channels.
    pub fn from_reserve_result(ret: i32, sample_count: i32) -> (r: Result<Self, AudioError>)
        ensures
            ret >= 0 ==> (r matches Ok(c) && c.sample_count == sample_count),
            ret < 0 ==> r == Err::<Self, AudioError>(AudioError(ret)),
    {
        if ret < 0 {
            Err(AudioError(ret))
        } else {
            Ok(SrcChannel { sample_count })
        }
    }

    /// The number of sample frames per output call.
    pub fn sample_count(&self) -> (r: i32)
        ensures
            r == self.sample_count,
    {
        self.sample_count
    }
}

} // verus!
