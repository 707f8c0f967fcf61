//! Multi-channel PCM audio mixing engine.
//!
//! The mixer manages up to [`MAX_CHANNELS`] logical streams. Application
//! code allocates a channel, submits interleaved stereo samples and adjusts
//! volume and fades; once per audio tick a driving loop calls
//! [`Mixer::mix_into`] to produce one interleaved stereo output buffer,
//! then forwards that buffer to the platform's blocking output call.
//!
//! On the device the channel table sits behind a spin lock and every
//! control operation holds the lock for its whole duration; that exclusive
//! access is expressed here directly, with the operations taking
//! `&mut self`.
//!
//! Each output sample is scaled as
//! `src * volume / 0x8000 * fade / 256 * master / 0x8000`, evaluated with
//! wide intermediates and truncating division at each step in exactly that
//! order, clamped to the 16-bit range, and accumulated with saturating
//! addition, so the output can never wrap around.

use vstd::prelude::*;

verus! {

/// Maximum number of mixer channels.
pub const MAX_CHANNELS: usize = 8;

/// Default sample count per audio output call (64-aligned).
pub const DEFAULT_SAMPLE_COUNT: i32 = 1024;

/// Full-volume value for the fade multiplier.
pub const FADE_MAX: i32 = 256;

/// Full volume in 16.16 fixed point (`256 << 16`).
pub const FADE_MAX_FP: i32 = 0x100_0000;

/// Channel state.
#[derive(Debug, Clone, Copy, PartialEq, Eq, Structural)]
pub enum ChannelState {
    /// Channel is free and can be allocated.
    Free,
    /// Channel is allocated but has no data queued.
    Idle,
    /// Channel is actively playing audio.
    Playing,
    /// Channel is fading out and will become idle when done.
    FadingOut,
}

/// Configuration for a mixer channel.
#[derive(Debug, Clone, Copy, PartialEq, Eq, Structural)]
pub struct ChannelConfig {
    /// Left channel volume (0..=0x8000).
    pub volume_left: i32,
    /// Right channel volume (0..=0x8000).
    pub volume_right: i32,
    /// Whether to loop when the buffer runs out.
    pub looping: bool,
}

impl Default for ChannelConfig {
    /// Full volume on both sides, no looping.
    fn default() -> (r: Self)
        ensures
            r == (ChannelConfig { volume_left: 0x8000, volume_right: 0x8000, looping: false }),
    {
        ChannelConfig { volume_left: 0x8000, volume_right: 0x8000, looping: false }
    }
}

/// A handle to a mixer channel: an index below [`MAX_CHANNELS`].
#[derive(Debug, Clone, Copy, PartialEq, Eq, Structural)]
pub struct ChannelHandle(pub u8);

/// Error type for mixer operations.
#[derive(Debug, Clone, Copy, PartialEq, Eq, Structural)]
pub enum MixerError {
    /// No free channels available.
    NoFreeChannels,
    /// The specified channel handle is invalid.
    InvalidChannel,
    /// The audio hardware returned an error.
    AudioError(i32),
    /// The mixer is already running.
    AlreadyRunning,
}

/// Per-channel state stored in the mixer: configuration, the submitted
/// sample buffer, the playback cursor and the fade envelope.
pub struct ChannelSlot {
    /// Lifecycle state.
    pub state: ChannelState,
    /// Volume and looping configuration.
    pub config: ChannelConfig,
    /// PCM sample buffer (interleaved stereo i16: L, R, L, R, ...).
    pub buffer: Vec<i16>,
    /// Current read position in the buffer, in stereo frames.
    pub position: usize,
    /// Fade volume multiplier in 16.16 fixed point (0..=FADE_MAX_FP).
    pub fade_level: i32,
    /// Fade step per mix call in 16.16 fixed point (negative = fade out).
    pub fade_step: i32,
}

impl ChannelSlot {
    /// A free slot with default configuration.
    pub fn new() -> (r: Self)
        ensures
            r.state == ChannelState::Free,
            r.config == (ChannelConfig { volume_left: 0x8000, volume_right: 0x8000, looping: false }),
            r.buffer@ == Seq::<i16>::empty(),
            r.position == 0,
            r.fade_level == FADE_MAX_FP,
            r.fade_step == 0,
            r.wf(),
    {
        ChannelSlot {
            state: ChannelState::Free,
            config: ChannelConfig { volume_left: 0x8000, volume_right: 0x8000, looping: false },
            buffer: Vec::new(),
            position: 0,
            fade_level: FADE_MAX_FP,
            fade_step: 0,
        }
    }

    /// Well-formedness: the fade level stays inside the fixed-point range,
    /// the fade step is at most one full scale per call, and the cursor
    /// never runs past the buffer's frame count.
    pub open spec fn wf(self) -> bool {
        &&& 0 <= self.fade_level <= FADE_MAX_FP
        &&& -FADE_MAX_FP <= self.fade_step <= FADE_MAX_FP
        &&& self.position <= frames_of(self.buffer@)
    }
}

/// Number of whole stereo frames held by an interleaved buffer.
pub open spec fn frames_of(buf: Seq<i16>) -> nat {
    buf.len() / 2
}

/// Whether a slot takes part in mixing.
pub open spec fn chan_active(ch: ChannelSlot) -> bool {
    ch.state == ChannelState::Playing || ch.state == ChannelState::FadingOut
}

/// Clamping to the signed 16-bit range.
pub open spec fn clamp_i16(x: int) -> int {
    if x > 32767 {
        32767
    } else if x < -32768 {
        -32768
    } else {
        x
    }
}

/// Saturating 16-bit addition.
pub open spec fn sat_add_i16(a: int, b: int) -> int {
    clamp_i16(a + b)
}

/// The scaling pipeline applied to the magnitude of a sample:
/// divide by the volume scale, apply the fade fraction, apply the master
/// volume, truncating at each division in this exact order.
pub open spec fn scale_mag(m: int, fade: int, master: int) -> int {
    m / 0x8000 * fade / 256 * master / 0x8000
}

/// One source sample scaled by channel volume, fade level and master
/// volume. Truncating division distributes over the sign, so the value is
/// the scaled magnitude of `src * vol` with the product's sign.
pub open spec fn scale_sample(src: int, vol: int, fade: int, master: int) -> int {
    let prod = src * vol;
    if prod >= 0 {
        scale_mag(prod, fade, master)
    } else {
        -scale_mag(-prod, fade, master)
    }
}

/// The fade multiplier a mix pass reads from a slot: the integer part of
/// the 16.16 fade level.
pub open spec fn fade_of(ch: ChannelSlot) -> int {
    ch.fade_level as int / 0x10000
}

/// The playback cursor of a channel at the start of output frame `i`,
/// starting from cursor `p0` over a buffer of `frames` stereo frames.
/// A frame with the cursor in range consumes one source frame; at the end
/// of the buffer a looping channel wraps the cursor to 0 (producing
/// nothing for that output frame), and a non-looping channel stays put.
pub open spec fn pos_at(p0: nat, frames: nat, looping: bool, i: nat) -> nat
    decreases i,
{
    if i == 0 {
        p0
    } else {
        let p = pos_at(p0, frames, looping, (i - 1) as nat);
        if p < frames {
            p + 1
        } else if looping {
            0
        } else {
            p
        }
    }
}

/// The contribution of one channel to output frame `i` (left sample when
/// `right` is false, right sample otherwise): the scaled, clamped source
/// sample when the channel is active with data at its cursor, and 0
/// otherwise.
pub open spec fn chan_frame_sample(ch: ChannelSlot, master: int, i: nat, right: bool) -> int {
    if chan_active(ch) && ch.buffer@.len() > 0 {
        let frames = frames_of(ch.buffer@);
        let p = pos_at(ch.position as nat, frames, ch.config.looping, i);
        if p < frames {
            let src = if right {
                ch.buffer@[2 * p as int + 1]
            } else {
                ch.buffer@[2 * p as int]
            };
            let vol = if right {
                ch.config.volume_right
            } else {
                ch.config.volume_left
            };
            clamp_i16(scale_sample(src as int, vol as int, fade_of(ch), master))
        } else {
            0
        }
    } else {
        0
    }
}

/// The output sample for frame `i` after the first `k` channels have been
/// mixed, in ascending channel order, accumulating with saturating
/// addition from 0.
pub open spec fn mixed_upto(chs: Seq<ChannelSlot>, k: int, master: int, i: nat, right: bool) -> int
    decreases k,
{
    if k <= 0 {
        0
    } else {
        sat_add_i16(
            mixed_upto(chs, k - 1, master, i, right),
            chan_frame_sample(chs[k - 1], master, i, right),
        )
    }
}

/// A channel's state and cursor after the per-sample loop of one mix pass
/// over `n` output frames, before the fade update. An active channel with
/// an empty buffer degrades to Idle; a non-looping channel whose cursor
/// runs off the end of the buffer during the pass becomes Idle.
pub open spec fn chan_after_samples(ch: ChannelSlot, n: nat) -> ChannelSlot {
    if !chan_active(ch) {
        ch
    } else if ch.buffer@.len() == 0 {
        ChannelSlot { state: ChannelState::Idle, ..ch }
    } else {
        let frames = frames_of(ch.buffer@);
        let exhausted = !ch.config.looping && ch.position + n > frames;
        ChannelSlot {
            position: pos_at(ch.position as nat, frames, ch.config.looping, n) as usize,
            state: if exhausted {
                ChannelState::Idle
            } else {
                ch.state
            },
            ..ch
        }
    }
}

/// A channel's full state after one mix pass over `n` output frames:
/// the sample loop's effect followed by one fade-envelope step, the level
/// clamped to `[0, FADE_MAX_FP]`. A fading channel whose level reaches 0
/// becomes Idle; a fading-in channel whose level reaches full scale holds
/// there with the step cleared. Channels skipped by the pass (inactive, or
/// active with an empty buffer) get no fade step.
pub open spec fn chan_after_mix(ch: ChannelSlot, n: nat) -> ChannelSlot {
    let c = chan_after_samples(ch, n);
    if !chan_active(ch) || ch.buffer@.len() == 0 {
        c
    } else if c.state == ChannelState::FadingOut {
        let nf = c.fade_level + c.fade_step;
        if nf <= 0 {
            ChannelSlot { fade_level: 0, state: ChannelState::Idle, ..c }
        } else if nf >= FADE_MAX_FP {
            ChannelSlot { fade_level: FADE_MAX_FP, ..c }
        } else {
            ChannelSlot { fade_level: nf as i32, ..c }
        }
    } else if c.fade_step > 0 {
        let nf = c.fade_level + c.fade_step;
        if nf >= FADE_MAX_FP {
            ChannelSlot { fade_level: FADE_MAX_FP, fade_step: 0, ..c }
        } else {
            ChannelSlot { fade_level: nf as i32, ..c }
        }
    } else {
        c
    }
}

/// A channel's state after `t` whole mix passes of `n` frames each.
pub open spec fn chan_after_mixes(ch: ChannelSlot, n: nat, t: nat) -> ChannelSlot
    decreases t,
{
    if t == 0 {
        ch
    } else {
        chan_after_mix(chan_after_mixes(ch, n, (t - 1) as nat), n)
    }
}

/// How many slots of a channel table are Free.
pub open spec fn free_count(chs: Seq<ChannelSlot>) -> int
    decreases chs.len(),
{
    if chs.len() == 0 {
        0
    } else {
        free_count(chs.drop_last()) + if chs.last().state == ChannelState::Free {
            1int
        } else {
            0int
        }
    }
}

/// Allocation succeeds exactly when a Free slot remains: the existence
/// test in `alloc_channel`'s contract and a positive free count are the
/// same thing.
pub proof fn lemma_alloc_succeeds_iff_free(chs: Seq<ChannelSlot>)
    ensures
        free_count(chs) > 0 <==> exists|k: int|
            0 <= k < chs.len() && (#[trigger] chs[k]).state == ChannelState::Free,
        free_count(chs) >= 0,
    decreases chs.len(),
{
    if chs.len() > 0 {
        lemma_alloc_succeeds_iff_free(chs.drop_last());
        if free_count(chs.drop_last()) > 0 {
            let k = choose|k: int|
                0 <= k < chs.drop_last().len() && (#[trigger] chs.drop_last()[k]).state
                    == ChannelState::Free;
            assert(chs[k].state == ChannelState::Free);
        }
        if chs.last().state == ChannelState::Free {
            assert(chs[chs.len() - 1].state == ChannelState::Free);
        }
        if free_count(chs) > 0 {
        } else {
            assert forall|k: int| 0 <= k < chs.len() implies (#[trigger] chs[k]).state
                != ChannelState::Free by {
                if k < chs.len() - 1 {
                    assert(chs.drop_last()[k] == chs[k]);
                }
            }
        }
    }
}

/// Each successful allocation uses up exactly one Free slot: updating a
/// Free slot to any non-Free slot (as `alloc_channel` does) lowers the
/// free count by one. Together with `lemma_alloc_succeeds_iff_free` and
/// `alloc_channel`'s contract, allocation from a fresh mixer succeeds
/// exactly `MAX_CHANNELS` consecutive times and the next attempt returns
/// `NoFreeChannels`.
pub proof fn lemma_alloc_decrements_free(chs: Seq<ChannelSlot>, k: int, slot: ChannelSlot)
    requires
        0 <= k < chs.len(),
        chs[k].state == ChannelState::Free,
        slot.state != ChannelState::Free,
    ensures
        free_count(chs.update(k, slot)) == free_count(chs) - 1,
    decreases chs.len(),
{
    let upd = chs.update(k, slot);
    if k == chs.len() - 1 {
        assert(upd.drop_last() =~= chs.drop_last());
    } else {
        assert(upd.drop_last() =~= chs.drop_last().update(k, slot));
        assert(upd.last() == chs.last());
        lemma_alloc_decrements_free(chs.drop_last(), k, slot);
    }
}

/// The slot that allocation picks is determined: only one index can be
/// the lowest Free one. So after freeing a channel whose lower-indexed
/// neighbours are all occupied, the next allocation reuses exactly that
/// freed index.
pub proof fn lemma_lowest_free_unique(chs: Seq<ChannelSlot>, k1: int, k2: int)
    requires
        0 <= k1 < chs.len(),
        0 <= k2 < chs.len(),
        chs[k1].state == ChannelState::Free,
        chs[k2].state == ChannelState::Free,
        forall|j: int| 0 <= j < k1 ==> (#[trigger] chs[j]).state != ChannelState::Free,
        forall|j: int| 0 <= j < k2 ==> (#[trigger] chs[j]).state != ChannelState::Free,
    ensures
        k1 == k2,
{
}

/// Mixing with every channel off the active states produces pure
/// silence: the accumulated output sample is 0 whatever the master
/// volume, frame and side.
pub proof fn lemma_idle_mix_silent(chs: Seq<ChannelSlot>, k: int, master: int, i: nat, right: bool)
    requires
        forall|j: int| 0 <= j < chs.len() ==> !chan_active(#[trigger] chs[j]),
        k <= chs.len(),
    ensures
        mixed_upto(chs, k, master, i, right) == 0,
    decreases k,
{
    if k > 0 {
        lemma_idle_mix_silent(chs, k - 1, master, i, right);
    }
}

/// Unity gain is exact: at channel volume 0x8000, full fade level and
/// master volume 0x8000 the scaling pipeline returns the source sample
/// unchanged, for every sample value. Two such channels therefore mix to
/// the plain saturating sum of their samples.
pub proof fn lemma_unity_gain(src: int)
    ensures
        scale_sample(src, 0x8000, 256, 0x8000) == src,
{
    if src >= 0 {
        lemma_scale_mag_unity(src);
    } else {
        lemma_scale_mag_unity(-src);
    }
}

proof fn lemma_scale_mag_unity(s: int)
    requires
        s >= 0,
    ensures
        scale_mag(s * 0x8000, 256, 0x8000) == s,
{
    assert((s * 0x8000) / 0x8000 == s) by (nonlinear_arith);
    assert((s * 256) / 256 == s) by (nonlinear_arith);
    assert(scale_mag(s * 0x8000, 256, 0x8000) == ((s * 0x8000) / 0x8000) * 256 / 256 * 0x8000
        / 0x8000);
}

/// Mixing never wraps around: whatever the channels hold, every
/// accumulated output sample stays inside the signed 16-bit range — loud
/// inputs saturate at the bounds instead.
pub proof fn lemma_mix_never_wraps(chs: Seq<ChannelSlot>, k: int, master: int, i: nat, right: bool)
    ensures
        -32768 <= mixed_upto(chs, k, master, i, right) <= 32767,
    decreases k,
{
    if k > 0 {
        lemma_mix_never_wraps(chs, k - 1, master, i, right);
    }
}

/// One mix pass keeps a channel well-formed.
pub proof fn lemma_chan_after_mix_wf(ch: ChannelSlot, n: nat)
    requires
        ch.wf(),
    ensures
        chan_after_mix(ch, n).wf(),
        chan_after_mix(ch, n).fade_step == ch.fade_step || (chan_after_mix(ch, n).fade_step == 0
            && ch.fade_step > 0),
        chan_after_mix(ch, n).buffer == ch.buffer,
        chan_after_mix(ch, n).config == ch.config,
{
    if chan_active(ch) && ch.buffer@.len() > 0 {
        lemma_pos_at_bound(
            ch.position as nat,
            frames_of(ch.buffer@),
            ch.config.looping,
            n,
        );
    }
}

/// When the frame count divides the full fixed-point scale, the fade-out
/// step uses the level up exactly: `frames` steps of `FADE_MAX_FP / frames`
/// cover the whole scale. Together with `lemma_fade_out_drives_idle` this
/// puts a channel given `fade_out(handle, frames)` at Idle by the
/// `frames`-th mix call.
pub proof fn lemma_fade_out_step_exact(frames: int)
    requires
        1 <= frames,
        FADE_MAX_FP as int % frames == 0,
    ensures
        frames * (FADE_MAX_FP as int / frames) == FADE_MAX_FP,
{
    vstd::arithmetic::div_mod::lemma_fundamental_div_mod(FADE_MAX_FP as int, frames);
}

/// A fade-out always completes: once a channel is FadingOut with a
/// negative step, it reaches Idle within any `t` mix passes whose
/// accumulated steps use up the whole remaining level. For
/// `fade_out(handle, N)` with `N` dividing the full scale this makes the
/// channel Idle by the `N`-th mix call exactly.
pub proof fn lemma_fade_out_drives_idle(ch: ChannelSlot, n: nat, t: nat)
    requires
        ch.wf(),
        ch.state == ChannelState::FadingOut,
        ch.fade_step < 0,
        ch.fade_level + t * ch.fade_step <= 0,
        t >= 1,
    ensures
        chan_after_mixes(ch, n, t).state == ChannelState::Idle,
{
    lemma_fade_out_descends(ch, n, t);
}

proof fn lemma_fade_out_descends(ch: ChannelSlot, n: nat, t: nat)
    requires
        ch.wf(),
        ch.state == ChannelState::FadingOut,
        ch.fade_step < 0,
    ensures
        chan_after_mixes(ch, n, t).state == ChannelState::Idle || (chan_after_mixes(ch, n, t).wf()
            && chan_after_mixes(ch, n, t).state == ChannelState::FadingOut && chan_after_mixes(
            ch,
            n,
            t,
        ).fade_step == ch.fade_step && chan_after_mixes(ch, n, t).fade_level <= ch.fade_level + t
            * ch.fade_step && (t >= 1 ==> chan_after_mixes(ch, n, t).fade_level >= 1)),
    decreases t,
{
    if t > 0 {
        lemma_fade_out_descends(ch, n, (t - 1) as nat);
        let c = chan_after_mixes(ch, n, (t - 1) as nat);
        lemma_chan_after_mix_wf_if(c, n);
        if c.state == ChannelState::FadingOut {
            let cs = chan_after_samples(c, n);
            assert(cs.fade_level == c.fade_level && cs.fade_step == c.fade_step);
            assert((t - 1) * ch.fade_step + ch.fade_step == t * ch.fade_step) by (nonlinear_arith);
        }
    }
}

proof fn lemma_chan_after_mix_wf_if(ch: ChannelSlot, n: nat)
    ensures
        ch.wf() ==> chan_after_mix(ch, n).wf(),
        !chan_active(ch) ==> chan_after_mix(ch, n) == ch,
{
    if ch.wf() {
        lemma_chan_after_mix_wf(ch, n);
    }
}

/// A non-looping channel goes Idle exactly when its cursor reaches the
/// end of its buffer: after one steady mix pass of `n` frames the state
/// is Idle precisely if the pass ran past the last frame, and the cursor
/// stops at the end.
pub proof fn lemma_nonlooping_exhaustion(ch: ChannelSlot, n: nat)
    requires
        ch.wf(),
        ch.state == ChannelState::Playing,
        ch.fade_step == 0,
        !ch.config.looping,
        ch.buffer@.len() > 0,
    ensures
        chan_after_mix(ch, n).state == if ch.position + n > frames_of(ch.buffer@) {
            ChannelState::Idle
        } else {
            ChannelState::Playing
        },
        chan_after_mix(ch, n).position == if ch.position + n <= frames_of(ch.buffer@) {
            ch.position + n
        } else {
            frames_of(ch.buffer@) as int
        },
{
    vstd::std_specs::vec::axiom_spec_len(&ch.buffer);
    lemma_pos_at_nonlooping(ch.position as nat, frames_of(ch.buffer@), n);
}

/// A looping channel is never exhausted: however many frames are mixed,
/// its cursor wraps to the start instead and the state stays Playing.
pub proof fn lemma_looping_never_exhausts(ch: ChannelSlot, n: nat)
    requires
        ch.wf(),
        ch.state == ChannelState::Playing,
        ch.fade_step == 0,
        ch.config.looping,
        ch.buffer@.len() > 0,
    ensures
        chan_after_mix(ch, n).state == ChannelState::Playing,
        chan_after_mix(ch, n).position <= frames_of(ch.buffer@),
{
    lemma_pos_at_bound(ch.position as nat, frames_of(ch.buffer@), true, n);
}

/// Once a non-looping cursor reaches the end it stays there; before that
/// it advances one frame per output frame. So for a non-looping channel
/// the cursor is the minimum of `p0 + i` and the frame count.
pub proof fn lemma_pos_at_nonlooping(p0: nat, frames: nat, i: nat)
    requires
        p0 <= frames,
    ensures
        pos_at(p0, frames, false, i) == if p0 + i <= frames {
            p0 + i
        } else {
            frames
        },
    decreases i,
{
    if i > 0 {
        lemma_pos_at_nonlooping(p0, frames, (i - 1) as nat);
    }
}

/// The cursor never runs past the end of the buffer.
pub proof fn lemma_pos_at_bound(p0: nat, frames: nat, looping: bool, i: nat)
    requires
        p0 <= frames,
    ensures
        pos_at(p0, frames, looping, i) <= frames,
    decreases i,
{
    if i > 0 {
        lemma_pos_at_bound(p0, frames, looping, (i - 1) as nat);
    }
}

/// A looping channel's cursor wraps instead of sticking: it never exceeds
/// the frame count, and whenever the buffer is non-empty the cursor comes
/// back into range at the very next frame after a wrap.
pub proof fn lemma_pos_at_looping_wraps(p0: nat, frames: nat, i: nat)
    requires
        p0 <= frames,
        frames > 0,
        pos_at(p0, frames, true, i) >= frames,
    ensures
        pos_at(p0, frames, true, i + 1) == 0,
{
    lemma_pos_at_bound(p0, frames, true, i);
}

/// Clamping a value already in the 16-bit range is the identity, so adding
/// a zero contribution leaves an output sample unchanged.
proof fn lemma_sat_add_zero(a: int)
    requires
        -32768 <= a <= 32767,
    ensures
        sat_add_i16(a, 0) == a,
{
}

/// Removing an element of a sequence and inserting another at the same
/// place is the same as updating that place.
proof fn lemma_remove_insert<T>(s: Seq<T>, k: int, v: T)
    requires
        0 <= k < s.len(),
    ensures
        s.remove(k).insert(k, v) =~= s.update(k, v),
{
}

/// Saturating 16-bit addition on machine values.
fn sat_add16(a: i16, b: i16) -> (r: i16)
    ensures
        r as int == sat_add_i16(a as int, b as int),
{
    let s: i32 = a as i32 + b as i32;
    if s > 32767 {
        32767
    } else if s < -32768 {
        -32768
    } else {
        s as i16
    }
}

/// One source sample through the scaling pipeline, clamped to 16 bits.
/// The magnitude is scaled with truncating division at each step in the
/// documented order; the sign of `src * vol` is applied at the end, which
/// is exactly truncating signed division throughout.
fn scale_one(src: i16, vol: i32, fade: i32, master: i32) -> (r: i16)
    requires
        0 <= fade <= 256,
        0 <= master <= 0x8000,
    ensures
        r as int == clamp_i16(scale_sample(src as int, vol as int, fade as int, master as int)),
{
    proof {
        assert((src as int) * (vol as int) <= 0x8000 * 0x8000_0000int && (src as int) * (vol as int)
            >= -0x8000 * 0x8000_0000int) by (nonlinear_arith)
            requires
                -0x8000 <= src as int <= 0x7FFF,
                -0x8000_0000 <= vol as int <= 0x7FFF_FFFF,
        ;
    }
    let prod: i64 = (src as i64) * (vol as i64);
    let m: u64 = if prod < 0 {
        (-prod) as u64
    } else {
        prod as u64
    };
    proof {
        assert(m <= 0x4000_0000_0000u64);
    }
    let m1: u64 = m / 0x8000;
    proof {
        vstd::arithmetic::div_mod::lemma_fundamental_div_mod(m as int, 0x8000);
        vstd::arithmetic::div_mod::lemma_mod_bound(m as int, 0x8000);
        assert(m1 <= 0x1_0000_0000u64);
        assert(m1 * (fade as int) <= 0x100_0000_0000) by (nonlinear_arith)
            requires
                0 <= m1 <= 0x1_0000_0000u64,
                0 <= fade as int <= 256,
        ;
    }
    let m2: u64 = m1 * (fade as u64);
    let m3: u64 = m2 / 256;
    proof {
        vstd::arithmetic::div_mod::lemma_fundamental_div_mod(m2 as int, 256);
        vstd::arithmetic::div_mod::lemma_mod_bound(m2 as int, 256);
        assert(m3 <= 0x1_0000_0000u64);
        assert(m3 * (master as int) <= 0x8000_0000_0000) by (nonlinear_arith)
            requires
                0 <= m3 <= 0x1_0000_0000u64,
                0 <= master as int <= 0x8000,
        ;
    }
    let m4: u64 = m3 * (master as u64);
    let m5: u64 = m4 / 0x8000;
    proof {
        vstd::arithmetic::div_mod::lemma_fundamental_div_mod(m4 as int, 0x8000);
        vstd::arithmetic::div_mod::lemma_mod_bound(m4 as int, 0x8000);
        assert(m5 <= 0x1_0000_0000u64);
    }
    let signed: i64 = if prod < 0 {
        -(m5 as i64)
    } else {
        m5 as i64
    };
    if signed > 32767 {
        32767
    } else if signed < -32768 {
        -32768
    } else {
        signed as i16
    }
}

/// Mix one channel into the output buffer over `old(output)@.len() / 2`
/// stereo frames, returning the channel's post-pass state. Every even
/// output element gets the channel's left contribution saturating-added,
/// every odd element the right one; a trailing odd element is untouched.
fn mix_channel(output: &mut Vec<i16>, ch: ChannelSlot, master: u32) -> (r: ChannelSlot)
    requires
        ch.wf(),
        master <= 0x8000,
    ensures
        r == chan_after_mix(ch, (old(output)@.len() / 2) as nat),
        r.wf(),
        final(output)@.len() == old(output)@.len(),
        forall|j: int|
            0 <= j < 2 * (old(output)@.len() as int / 2) ==> final(output)@[j] as int
                == sat_add_i16(
                old(output)@[j] as int,
                chan_frame_sample(ch, master as int, (j / 2) as nat, j % 2 == 1),
            ),
        forall|j: int|
            2 * (old(output)@.len() as int / 2) <= j < old(output)@.len() ==> final(output)@[j]
                == old(output)@[j],
{
    let n: usize = output.len() / 2;
    let ghost n_nat = n as nat;
    let ghost out0 = output@;
    let active = matches!(ch.state, ChannelState::Playing) || matches!(
        ch.state,
        ChannelState::FadingOut,
    );
    if !active {
        proof {
            assert forall|j: int| 0 <= j < 2 * (out0.len() as int / 2) implies out0[j] as int
                == sat_add_i16(
                out0[j] as int,
                chan_frame_sample(ch, master as int, (j / 2) as nat, j % 2 == 1),
            ) by {
                lemma_sat_add_zero(out0[j] as int);
            }
        }
        return ch;
    }
    if ch.buffer.len() == 0 {
        proof {
            assert forall|j: int| 0 <= j < 2 * (out0.len() as int / 2) implies out0[j] as int
                == sat_add_i16(
                out0[j] as int,
                chan_frame_sample(ch, master as int, (j / 2) as nat, j % 2 == 1),
            ) by {
                lemma_sat_add_zero(out0[j] as int);
            }
        }
        let r = ChannelSlot { state: ChannelState::Idle, ..ch };
        return r;
    }
    let frames: usize = ch.buffer.len() / 2;
    let ghost frames_nat = frames_of(ch.buffer@);
    let fade: i32 = ((ch.fade_level as u32) / 65536) as i32;
    proof {
        assert(fade == fade_of(ch));
        assert(0 <= fade <= 256);
    }
    let vol_l = ch.config.volume_left;
    let vol_r = ch.config.volume_right;
    let looping = ch.config.looping;
    let ghost p0 = ch.position as nat;
    let mut position: usize = ch.position;
    let mut state = ch.state;
    let mut done: bool = false;
    let mut i: usize = 0;
    proof {
        vstd::arithmetic::div_mod::lemma_fundamental_div_mod(ch.buffer@.len() as int, 2);
        vstd::arithmetic::div_mod::lemma_mod_bound(ch.buffer@.len() as int, 2);
        vstd::arithmetic::div_mod::lemma_fundamental_div_mod(out0.len() as int, 2);
        vstd::arithmetic::div_mod::lemma_mod_bound(out0.len() as int, 2);
    }
    while i < n && !done
        invariant
            ch.wf(),
            2 * (frames as int) <= ch.buffer@.len() <= usize::MAX,
            2 * (n as int) <= out0.len() <= usize::MAX,
            master <= 0x8000,
            chan_active(ch),
            ch.buffer@.len() > 0,
            n_nat == out0.len() / 2,
            n == n_nat,
            frames_nat == frames_of(ch.buffer@),
            frames == frames_nat,
            fade == fade_of(ch),
            0 <= fade <= 256,
            vol_l == ch.config.volume_left,
            vol_r == ch.config.volume_right,
            looping == ch.config.looping,
            p0 == ch.position as nat,
            i <= n,
            output@.len() == out0.len(),
            position == pos_at(p0, frames_nat, looping, i as nat),
            position <= frames,
            !done ==> state == ch.state,
            !done && !looping ==> position == p0 + i && p0 + i <= frames_nat,
            done ==> state == ChannelState::Idle && !looping && position == frames_nat && i < n
                && p0 + i >= frames_nat,
            forall|j: int|
                0 <= j < i ==> #[trigger] output@[2 * j] as int == sat_add_i16(
                    out0[2 * j] as int,
                    chan_frame_sample(ch, master as int, j as nat, false),
                ),
            forall|j: int|
                0 <= j < i ==> #[trigger] output@[2 * j + 1] as int == sat_add_i16(
                    out0[2 * j + 1] as int,
                    chan_frame_sample(ch, master as int, j as nat, true),
                ),
            forall|jj: int| 2 * i <= jj < out0.len() ==> output@[jj] == out0[jj],
        decreases n - i, (if done { 0int } else { 1int }),
    {
        proof {
            lemma_pos_at_bound(p0, frames_nat, looping, i as nat);
            vstd::arithmetic::div_mod::lemma_fundamental_div_mod(ch.buffer@.len() as int, 2);
            vstd::arithmetic::div_mod::lemma_mod_bound(ch.buffer@.len() as int, 2);
            assert(2 * (frames as int) <= ch.buffer@.len());
            vstd::arithmetic::div_mod::lemma_fundamental_div_mod(out0.len() as int, 2);
            vstd::arithmetic::div_mod::lemma_mod_bound(out0.len() as int, 2);
            assert(2 * (n as int) <= out0.len());
        }
        if position >= frames {
            if looping {
                position = 0;
                proof {
                    assert(chan_frame_sample(ch, master as int, i as nat, false) == 0);
                    assert(chan_frame_sample(ch, master as int, i as nat, true) == 0);
                    lemma_sat_add_zero(out0[2 * i as int] as int);
                    lemma_sat_add_zero(out0[2 * i as int + 1] as int);
                }
                i = i + 1;
            } else {
                state = ChannelState::Idle;
                done = true;
            }
        } else {
            let bp: usize = 2 * position;
            let src_l: i16 = ch.buffer[bp];
            let src_r: i16 = ch.buffer[bp + 1];
            let mixed_l = scale_one(src_l, vol_l, fade, master as i32);
            let mixed_r = scale_one(src_r, vol_r, fade, master as i32);
            let oi: usize = 2 * i;
            let cur_l: i16 = output[oi];
            let cur_r: i16 = output[oi + 1];
            output[oi] = sat_add16(cur_l, mixed_l);
            output[oi + 1] = sat_add16(cur_r, mixed_r);
            proof {
                assert(chan_frame_sample(ch, master as int, i as nat, false) == clamp_i16(
                    scale_sample(src_l as int, vol_l as int, fade as int, master as int),
                ));
                assert(chan_frame_sample(ch, master as int, i as nat, true) == clamp_i16(
                    scale_sample(src_r as int, vol_r as int, fade as int, master as int),
                ));
                assert(clamp_i16(mixed_l as int) == mixed_l as int);
                assert(clamp_i16(mixed_r as int) == mixed_r as int);
            }
            position = position + 1;
            i = i + 1;
        }
    }
    proof {
        if done {
            assert forall|j: int|
                i <= j < n implies #[trigger] chan_frame_sample(ch, master as int, j as nat, false)
                == 0 && chan_frame_sample(ch, master as int, j as nat, true) == 0 by {
                lemma_pos_at_nonlooping(p0, frames_nat, j as nat);
            }
            assert forall|j: int| 0 <= j < n implies #[trigger] output@[2 * j] as int
                == sat_add_i16(
                out0[2 * j] as int,
                chan_frame_sample(ch, master as int, j as nat, false),
            ) by {
                vstd::arithmetic::div_mod::lemma_fundamental_div_mod(out0.len() as int, 2);
                vstd::arithmetic::div_mod::lemma_mod_bound(out0.len() as int, 2);
                assert(2 * (n as int) <= out0.len());
                if j >= i {
                    lemma_pos_at_nonlooping(p0, frames_nat, j as nat);
                    assert(output@[2 * j] == out0[2 * j]);
                    lemma_sat_add_zero(out0[2 * j] as int);
                }
            }
            assert forall|j: int| 0 <= j < n implies #[trigger] output@[2 * j + 1] as int
                == sat_add_i16(
                out0[2 * j + 1] as int,
                chan_frame_sample(ch, master as int, j as nat, true),
            ) by {
                vstd::arithmetic::div_mod::lemma_fundamental_div_mod(out0.len() as int, 2);
                vstd::arithmetic::div_mod::lemma_mod_bound(out0.len() as int, 2);
                assert(2 * (n as int) <= out0.len());
                if j >= i {
                    lemma_pos_at_nonlooping(p0, frames_nat, j as nat);
                    assert(output@[2 * j + 1] == out0[2 * j + 1]);
                    lemma_sat_add_zero(out0[2 * j + 1] as int);
                }
            }
            assert(pos_at(p0, frames_nat, false, n_nat) == frames_nat) by {
                lemma_pos_at_nonlooping(p0, frames_nat, n_nat);
            }
        }
        // Bridge the per-frame facts (even/odd element pairs) to the
        // postcondition's arbitrary-index form.
        assert forall|j: int| 0 <= j < 2 * (out0.len() as int / 2) implies #[trigger] output@[j]
            as int == sat_add_i16(
            out0[j] as int,
            chan_frame_sample(ch, master as int, (j / 2) as nat, j % 2 == 1),
        ) by {
            vstd::arithmetic::div_mod::lemma_fundamental_div_mod(j, 2);
            vstd::arithmetic::div_mod::lemma_mod_bound(j, 2);
            let q = j / 2;
            if j % 2 == 0 {
                assert(j == 2 * q);
                assert(output@[2 * q] as int == sat_add_i16(
                    out0[2 * q] as int,
                    chan_frame_sample(ch, master as int, q as nat, false),
                ));
            } else {
                assert(j == 2 * q + 1);
                assert(output@[2 * q + 1] as int == sat_add_i16(
                    out0[2 * q + 1] as int,
                    chan_frame_sample(ch, master as int, q as nat, true),
                ));
            }
        }
    }
    // The per-sample loop is done; apply one fade-envelope step, clamped
    // to the fixed-point range.
    let ghost after_samples = chan_after_samples(ch, n_nat);
    proof {
        assert(after_samples.state == state && after_samples.position == position
            && after_samples.fade_level == ch.fade_level && after_samples.fade_step
            == ch.fade_step);
    }
    let mut fade_level = ch.fade_level;
    let mut fade_step = ch.fade_step;
    if matches!(state, ChannelState::FadingOut) {
        let nf = fade_level + fade_step;
        if nf <= 0 {
            fade_level = 0;
            state = ChannelState::Idle;
        } else if nf >= FADE_MAX_FP {
            fade_level = FADE_MAX_FP;
        } else {
            fade_level = nf;
        }
    } else if fade_step > 0 {
        let nf = fade_level + fade_step;
        if nf >= FADE_MAX_FP {
            fade_level = FADE_MAX_FP;
            fade_step = 0;
        } else {
            fade_level = nf;
        }
    }
    let r = ChannelSlot { state, position, fade_level, fade_step, config: ch.config, buffer: ch.buffer };
    proof {
        assert(r == chan_after_mix(ch, n_nat));
    }
    r
}

impl Mixer {
    /// Mix all active channels into `output`, producing
    /// `output.len() / 2` interleaved stereo frames. The buffer is zeroed
    /// first; channels are processed in ascending index order, each sample
    /// scaled by channel volume, fade and master volume and accumulated
    /// with saturating addition. Channel cursors, states and fade levels
    /// advance as [`chan_after_mix`] describes. This call cannot fail.
    pub fn mix_into(&mut self, output: &mut Vec<i16>)
        requires
            old(self).wf(),
        ensures
            final(self).wf(),
            final(self).sample_count == old(self).sample_count,
            final(self).hw_channel == old(self).hw_channel,
            final(self).master_volume == old(self).master_volume,
            final(output)@.len() == old(output)@.len(),
            forall|k: int|
                0 <= k < MAX_CHANNELS ==> final(self).channels@[k] == chan_after_mix(
                    old(self).channels@[k],
                    (old(output)@.len() / 2) as nat,
                ),
            forall|j: int|
                0 <= j < 2 * (old(output)@.len() as int / 2) ==> final(output)@[j] as int
                    == mixed_upto(
                    old(self).channels@,
                    MAX_CHANNELS as int,
                    old(self).master_volume as int,
                    (j / 2) as nat,
                    j % 2 == 1,
                ),
            forall|j: int|
                2 * (old(output)@.len() as int / 2) <= j < old(output)@.len() ==> final(output)@[j]
                    == 0,
    {
        let ghost chs0 = self.channels@;
        let ghost n_nat = (output@.len() / 2) as nat;
        let len: usize = output.len();
        let mut j: usize = 0;
        while j < len
            invariant
                j <= len,
                output@.len() == len,
                forall|jj: int| 0 <= jj < j ==> output@[jj] == 0i16,
            decreases len - j,
        {
            output[j] = 0;
            j = j + 1;
        }
        let master = self.master_volume;
        let mut k: usize = 0;
        while k < MAX_CHANNELS
            invariant
                old(self).wf(),
                chs0 == old(self).channels@,
                n_nat == len / 2,
                master == old(self).master_volume,
                master <= 0x8000,
                k <= MAX_CHANNELS,
                self.channels@.len() == MAX_CHANNELS,
                self.sample_count == old(self).sample_count,
                self.hw_channel == old(self).hw_channel,
                self.master_volume == old(self).master_volume,
                forall|kk: int|
                    0 <= kk < k ==> #[trigger] self.channels@[kk] == chan_after_mix(
                        chs0[kk],
                        n_nat,
                    ) && self.channels@[kk].wf(),
                forall|kk: int| k <= kk < MAX_CHANNELS ==> self.channels@[kk] == chs0[kk],
                output@.len() == len,
                forall|j: int|
                    0 <= j < 2 * (len as int / 2) ==> #[trigger] output@[j] as int == mixed_upto(
                        chs0,
                        k as int,
                        master as int,
                        (j / 2) as nat,
                        j % 2 == 1,
                    ),
                forall|j: int| 2 * (len as int / 2) <= j < len ==> output@[j] == 0i16,
            decreases MAX_CHANNELS - k,
        {
            let ghost pre = self.channels@;
            let ghost out_pre = output@;
            let ch = self.channels.remove(k);
            proof {
                assert(ch == chs0[k as int]);
                assert(ch.wf());
            }
            let ch2 = mix_channel(output, ch, master);
            self.channels.insert(k, ch2);
            proof {
                lemma_remove_insert(pre, k as int, ch2);
                assert(self.channels@ == pre.update(k as int, ch2));
                assert forall|j: int| 0 <= j < 2 * (len as int / 2) implies #[trigger] output@[j]
                    as int == mixed_upto(
                    chs0,
                    k as int + 1,
                    master as int,
                    (j / 2) as nat,
                    j % 2 == 1,
                ) by {
                    assert(output@[j] as int == sat_add_i16(
                        out_pre[j] as int,
                        chan_frame_sample(ch, master as int, (j / 2) as nat, j % 2 == 1),
                    ));
                }
            }
            k = k + 1;
        }
    }

    /// Record the outcome of the platform's hardware-channel reservation:
    /// a non-negative grant is stored as the held channel; a negative code
    /// is returned as [`MixerError::AudioError`] and nothing changes.
    pub fn accept_hw_channel(&mut self, granted: i32) -> (r: Result<(), MixerError>)
        requires
            old(self).wf(),
        ensures
            final(self).wf(),
            final(self).channels@ == old(self).channels@,
            final(self).sample_count == old(self).sample_count,
            final(self).master_volume == old(self).master_volume,
            granted >= 0 ==> r == Ok::<(), MixerError>(()) && final(self).hw_channel == granted,
            granted < 0 ==> r == Err::<(), MixerError>(MixerError::AudioError(granted))
                && final(self).hw_channel == old(self).hw_channel,
    {
        if granted < 0 {
            return Err(MixerError::AudioError(granted));
        }
        self.hw_channel = granted;
        Ok(())
    }

    /// Give up the held hardware channel, if any: the mixer forgets the
    /// id and hands it back so the caller can release it with the
    /// platform. Idempotent — a second call returns None.
    pub fn release_hw_channel(&mut self) -> (r: Option<i32>)
        requires
            old(self).wf(),
        ensures
            final(self).wf(),
            final(self).channels@ == old(self).channels@,
            final(self).sample_count == old(self).sample_count,
            final(self).master_volume == old(self).master_volume,
            final(self).hw_channel == -1,
            r == if old(self).hw_channel >= 0 {
                Some(old(self).hw_channel)
            } else {
                None::<i32>
            },
    {
        let ch = self.hw_channel;
        self.hw_channel = -1;
        if ch >= 0 {
            Some(ch)
        } else {
            None
        }
    }

    /// Validate a buffer for the blocking output call and name the channel
    /// to output on. Succeeds exactly when the buffer holds at least
    /// `2 * sample_count` elements and a hardware channel is held; the
    /// blocking call itself is platform work done outside the library, at
    /// unity software gain (volume, fade and master gain were already
    /// applied during mixing).
    pub fn output_params(&self, buffer_len: usize) -> (r: Result<i32, MixerError>)
        requires
            self.wf(),
        ensures
            (buffer_len >= 2 * self.sample_count && self.hw_channel >= 0) <==> (r matches Ok(ch)
                && ch == self.hw_channel),
            (buffer_len < 2 * self.sample_count || self.hw_channel < 0) <==> r == Err::<
                i32,
                MixerError,
            >(MixerError::AudioError(-1i32)),
    {
        let required: usize = (self.sample_count as usize) * 2;
        if buffer_len < required {
            return Err(MixerError::AudioError(-1));
        }
        let ch = self.hw_channel;
        if ch < 0 {
            return Err(MixerError::AudioError(-1));
        }
        Ok(ch)
    }
}

/// Multi-channel PCM audio mixer.
///
/// Owns [`MAX_CHANNELS`] channel slots, the configured output buffer
/// length, the master volume, and the id of the reserved hardware output
/// channel (-1 when none is held).
pub struct Mixer {
    /// The channel table. Exactly [`MAX_CHANNELS`] slots.
    pub channels: Vec<ChannelSlot>,
    /// Stereo frames produced per mix call (64-aligned).
    pub sample_count: i32,
    /// Hardware channel id granted by the platform, or -1.
    pub hw_channel: i32,
    /// Master volume (0..=0x8000).
    pub master_volume: u32,
}

impl Mixer {
    /// Well-formedness of the whole mixer.
    pub open spec fn wf(self) -> bool {
        &&& self.channels@.len() == MAX_CHANNELS
        &&& forall|k: int| 0 <= k < MAX_CHANNELS ==> (#[trigger] self.channels@[k]).wf()
        &&& self.sample_count % 64 == 0
        &&& 0 <= self.sample_count
        &&& self.master_volume <= 0x8000
    }

    /// Create a new mixer producing `spec_align_sample_count(sample_count)`
    /// stereo frames per output call. All slots start Free, the master
    /// volume starts at full scale, and no hardware channel is held.
    pub fn new(sample_count: i32) -> (r: Result<Self, MixerError>)
        requires
            0 <= sample_count <= 65472,
        ensures
            r matches Ok(m) && m.wf(),
            r matches Ok(m) && m.sample_count == crate::audio::spec_align_sample_count(
                sample_count as int,
            ),
            r matches Ok(m) && m.master_volume == 0x8000 && m.hw_channel == -1,
            r matches Ok(m) && forall|k: int|
                0 <= k < MAX_CHANNELS ==> (#[trigger] m.channels@[k]).state == ChannelState::Free,
    {
        let aligned = crate::audio::align_sample_count(sample_count);
        let mut channels: Vec<ChannelSlot> = Vec::new();
        let mut k: usize = 0;
        while k < MAX_CHANNELS
            invariant
                k <= MAX_CHANNELS,
                channels@.len() == k,
                forall|j: int| 0 <= j < k ==> (#[trigger] channels@[j]).wf(),
                forall|j: int|
                    0 <= j < k ==> (#[trigger] channels@[j]).state == ChannelState::Free,
            decreases MAX_CHANNELS - k,
        {
            channels.push(ChannelSlot::new());
            k = k + 1;
        }
        Ok(Mixer { channels, sample_count: aligned, hw_channel: -1, master_volume: 0x8000 })
    }

    /// Get the configured sample count per output call.
    pub fn sample_count(&self) -> (r: i32)
        ensures
            r == self.sample_count,
    {
        self.sample_count
    }

    /// Set the master volume, clamped to 0..=0x8000.
    pub fn set_master_volume(&mut self, volume: u32)
        requires
            old(self).wf(),
        ensures
            final(self).wf(),
            final(self).master_volume == if volume <= 0x8000 {
                volume as int
            } else {
                0x8000
            },
            final(self).channels@ == old(self).channels@,
            final(self).sample_count == old(self).sample_count,
            final(self).hw_channel == old(self).hw_channel,
    {
        self.master_volume = if volume < 0x8000 {
            volume
        } else {
            0x8000
        };
    }

    /// Get the master volume.
    pub fn master_volume(&self) -> (r: u32)
        ensures
            r == self.master_volume,
    {
        self.master_volume
    }

    /// Allocate the lowest-index free channel, assign it `config`, and
    /// reset its buffer, cursor and fade to defaults. Succeeds exactly
    /// when some slot is Free, and then returns the lowest Free index.
    pub fn alloc_channel(&mut self, config: ChannelConfig) -> (r: Result<
        ChannelHandle,
        MixerError,
    >)
        requires
            old(self).wf(),
        ensures
            final(self).wf(),
            final(self).sample_count == old(self).sample_count,
            final(self).hw_channel == old(self).hw_channel,
            final(self).master_volume == old(self).master_volume,
            (exists|k: int|
                0 <= k < MAX_CHANNELS && (#[trigger] old(self).channels@[k]).state
                    == ChannelState::Free) <==> (r matches Ok(_)),
            r matches Ok(h) ==> {
                let k = h.0 as int;
                &&& 0 <= k < MAX_CHANNELS
                &&& old(self).channels@[k].state == ChannelState::Free
                &&& forall|j: int|
                    0 <= j < k ==> (#[trigger] old(self).channels@[j]).state != ChannelState::Free
                &&& final(self).channels@ == old(self).channels@.update(
                    k,
                    ChannelSlot {
                        state: ChannelState::Idle,
                        config,
                        buffer: final(self).channels@[k].buffer,
                        position: 0,
                        fade_level: FADE_MAX_FP,
                        fade_step: 0,
                    },
                )
                &&& final(self).channels@[k].buffer@ == Seq::<i16>::empty()
            },
            r matches Err(e) ==> e == MixerError::NoFreeChannels && final(self).channels@ == old(
                self,
            ).channels@,
    {
        let mut k: usize = 0;
        while k < MAX_CHANNELS
            invariant
                old(self).wf(),
                self == old(self),
                k <= MAX_CHANNELS,
                forall|j: int|
                    0 <= j < k ==> (#[trigger] self.channels@[j]).state != ChannelState::Free,
            decreases MAX_CHANNELS - k,
        {
            if matches!(self.channels[k].state, ChannelState::Free) {
                let slot = ChannelSlot {
                    state: ChannelState::Idle,
                    config,
                    buffer: Vec::new(),
                    position: 0,
                    fade_level: FADE_MAX_FP,
                    fade_step: 0,
                };
                let _ = self.channels.remove(k);
                self.channels.insert(k, slot);
                return Ok(ChannelHandle(k as u8));
            }
            k = k + 1;
        }
        Err(MixerError::NoFreeChannels)
    }

    /// Free a mixer channel: reset the slot to Free and drop its buffer,
    /// whatever its prior state. Fails exactly when the handle is out of
    /// range.
    pub fn free_channel(&mut self, handle: ChannelHandle) -> (r: Result<(), MixerError>)
        requires
            old(self).wf(),
        ensures
            final(self).wf(),
            final(self).sample_count == old(self).sample_count,
            final(self).hw_channel == old(self).hw_channel,
            final(self).master_volume == old(self).master_volume,
            handle.0 < MAX_CHANNELS <==> (r matches Ok(_)),
            r matches Ok(_) ==> {
                let k = handle.0 as int;
                &&& final(self).channels@ == old(self).channels@.update(
                    k,
                    ChannelSlot {
                        state: ChannelState::Free,
                        buffer: final(self).channels@[k].buffer,
                        position: 0,
                        ..old(self).channels@[k]
                    },
                )
                &&& final(self).channels@[k].buffer@ == Seq::<i16>::empty()
            },
            r matches Err(e) ==> e == MixerError::InvalidChannel && final(self).channels@ == old(
                self,
            ).channels@,
    {
        let k = handle.0 as usize;
        if k >= MAX_CHANNELS {
            return Err(MixerError::InvalidChannel);
        }
        let old_slot = self.channels.remove(k);
        let slot = ChannelSlot {
            state: ChannelState::Free,
            buffer: Vec::new(),
            position: 0,
            ..old_slot
        };
        self.channels.insert(k, slot);
        Ok(())
    }

    /// Submit PCM samples to a channel. The samples are interleaved stereo
    /// (L, R, L, R, ...); the slot takes a copy. The cursor resets to 0,
    /// the fade level returns to full scale, and the state becomes
    /// Playing. Fails exactly when the handle is out of range or the slot
    /// is Free.
    pub fn submit_samples(&mut self, handle: ChannelHandle, samples: &[i16]) -> (r: Result<
        (),
        MixerError,
    >)
        requires
            old(self).wf(),
        ensures
            final(self).wf(),
            final(self).sample_count == old(self).sample_count,
            final(self).hw_channel == old(self).hw_channel,
            final(self).master_volume == old(self).master_volume,
            (handle.0 < MAX_CHANNELS && old(self).channels@[handle.0 as int].state
                != ChannelState::Free) <==> (r matches Ok(_)),
            r matches Ok(_) ==> {
                let k = handle.0 as int;
                &&& final(self).channels@ == old(self).channels@.update(
                    k,
                    ChannelSlot {
                        state: ChannelState::Playing,
                        buffer: final(self).channels@[k].buffer,
                        position: 0,
                        fade_level: FADE_MAX_FP,
                        ..old(self).channels@[k]
                    },
                )
                &&& final(self).channels@[k].buffer@ == samples@
            },
            r matches Err(e) ==> e == MixerError::InvalidChannel && final(self).channels@ == old(
                self,
            ).channels@,
    {
        let k = handle.0 as usize;
        if k >= MAX_CHANNELS {
            return Err(MixerError::InvalidChannel);
        }
        if matches!(self.channels[k].state, ChannelState::Free) {
            return Err(MixerError::InvalidChannel);
        }
        let mut buf: Vec<i16> = Vec::new();
        let mut i: usize = 0;
        while i < samples.len()
            invariant
                i <= samples@.len(),
                buf@ == samples@.subrange(0, i as int),
            decreases samples@.len() - i,
        {
            buf.push(samples[i]);
            i = i + 1;
        }
        proof {
            assert(buf@ == samples@);
        }
        let old_slot = self.channels.remove(k);
        let slot = ChannelSlot {
            state: ChannelState::Playing,
            buffer: buf,
            position: 0,
            fade_level: FADE_MAX_FP,
            ..old_slot
        };
        self.channels.insert(k, slot);
        Ok(())
    }

    /// Set the volume for a channel. The values are stored without
    /// clamping; that is the caller's responsibility. Fails exactly when
    /// the handle is out of range.
    pub fn set_channel_volume(&mut self, handle: ChannelHandle, left: i32, right: i32) -> (r:
        Result<(), MixerError>)
        requires
            old(self).wf(),
        ensures
            final(self).wf(),
            final(self).sample_count == old(self).sample_count,
            final(self).hw_channel == old(self).hw_channel,
            final(self).master_volume == old(self).master_volume,
            handle.0 < MAX_CHANNELS <==> (r matches Ok(_)),
            r matches Ok(_) ==> {
                let k = handle.0 as int;
                final(self).channels@ == old(self).channels@.update(
                    k,
                    ChannelSlot {
                        config: ChannelConfig {
                            volume_left: left,
                            volume_right: right,
                            looping: old(self).channels@[k].config.looping,
                        },
                        ..old(self).channels@[k]
                    },
                )
            },
            r matches Err(e) ==> e == MixerError::InvalidChannel && final(self).channels@ == old(
                self,
            ).channels@,
    {
        let k = handle.0 as usize;
        if k >= MAX_CHANNELS {
            return Err(MixerError::InvalidChannel);
        }
        let old_slot = self.channels.remove(k);
        let slot = ChannelSlot {
            config: ChannelConfig {
                volume_left: left,
                volume_right: right,
                looping: old_slot.config.looping,
            },
            ..old_slot
        };
        self.channels.insert(k, slot);
        Ok(())
    }

    /// Start a fade-out over `frames` mix calls. With `frames == 0` the
    /// channel is cut immediately (level 0, state Idle); otherwise the
    /// step becomes `-(FADE_MAX_FP / frames)` and the state FadingOut.
    /// Fails exactly when the handle is out of range.
    pub fn fade_out(&mut self, handle: ChannelHandle, frames: u16) -> (r: Result<(), MixerError>)
        requires
            old(self).wf(),
        ensures
            final(self).wf(),
            final(self).sample_count == old(self).sample_count,
            final(self).hw_channel == old(self).hw_channel,
            final(self).master_volume == old(self).master_volume,
            handle.0 < MAX_CHANNELS <==> (r matches Ok(_)),
            r matches Ok(_) && frames == 0 ==> final(self).channels@ == old(self).channels@.update(
                handle.0 as int,
                ChannelSlot {
                    fade_level: 0,
                    state: ChannelState::Idle,
                    ..old(self).channels@[handle.0 as int]
                },
            ),
            r matches Ok(_) && frames > 0 ==> final(self).channels@ == old(self).channels@.update(
                handle.0 as int,
                ChannelSlot {
                    fade_step: (-(FADE_MAX_FP as int / frames as int)) as i32,
                    state: ChannelState::FadingOut,
                    ..old(self).channels@[handle.0 as int]
                },
            ),
            r matches Err(e) ==> e == MixerError::InvalidChannel && final(self).channels@ == old(
                self,
            ).channels@,
    {
        let k = handle.0 as usize;
        if k >= MAX_CHANNELS {
            return Err(MixerError::InvalidChannel);
        }
        let old_slot = self.channels.remove(k);
        let slot = if frames == 0 {
            ChannelSlot { fade_level: 0, state: ChannelState::Idle, ..old_slot }
        } else {
            let step_mag: u32 = (FADE_MAX_FP as u32) / (frames as u32);
            ChannelSlot {
                fade_step: -(step_mag as i32),
                state: ChannelState::FadingOut,
                ..old_slot
            }
        };
        self.channels.insert(k, slot);
        Ok(())
    }

    /// Start a fade-in over `frames` mix calls. With `frames == 0` the
    /// level jumps to full scale; otherwise the level resets to 0 and the
    /// step becomes `FADE_MAX_FP / frames`. The Playing/Idle state is not
    /// changed. Fails exactly when the handle is out of range.
    pub fn fade_in(&mut self, handle: ChannelHandle, frames: u16) -> (r: Result<(), MixerError>)
        requires
            old(self).wf(),
        ensures
            final(self).wf(),
            final(self).sample_count == old(self).sample_count,
            final(self).hw_channel == old(self).hw_channel,
            final(self).master_volume == old(self).master_volume,
            handle.0 < MAX_CHANNELS <==> (r matches Ok(_)),
            r matches Ok(_) && frames == 0 ==> final(self).channels@ == old(self).channels@.update(
                handle.0 as int,
                ChannelSlot { fade_level: FADE_MAX_FP, ..old(self).channels@[handle.0 as int] },
            ),
            r matches Ok(_) && frames > 0 ==> final(self).channels@ == old(self).channels@.update(
                handle.0 as int,
                ChannelSlot {
                    fade_level: 0,
                    fade_step: (FADE_MAX_FP as int / frames as int) as i32,
                    ..old(self).channels@[handle.0 as int]
                },
            ),
            r matches Err(e) ==> e == MixerError::InvalidChannel && final(self).channels@ == old(
                self,
            ).channels@,
    {
        let k = handle.0 as usize;
        if k >= MAX_CHANNELS {
            return Err(MixerError::InvalidChannel);
        }
        let old_slot = self.channels.remove(k);
        let slot = if frames == 0 {
            ChannelSlot { fade_level: FADE_MAX_FP, ..old_slot }
        } else {
            let step_mag: u32 = (FADE_MAX_FP as u32) / (frames as u32);
            ChannelSlot { fade_level: 0, fade_step: step_mag as i32, ..old_slot }
        };
        self.channels.insert(k, slot);
        Ok(())
    }
}

} // verus!
