use psp::audio::align_sample_count;
use psp::audio_mixer::{
    ChannelConfig, ChannelHandle, ChannelState, Mixer, MixerError, DEFAULT_SAMPLE_COUNT,
    FADE_MAX_FP, MAX_CHANNELS,
};

fn full_volume() -> ChannelConfig {
    ChannelConfig { volume_left: 0x8000, volume_right: 0x8000, looping: false }
}

fn constant_buffer(frames: usize, value: i16) -> Vec<i16> {
    vec![value; frames * 2]
}

#[test]
fn sample_count_rounds_up_to_64() {
    let m = Mixer::new(999).unwrap();
    assert_eq!(m.sample_count(), 1024);
    let m = Mixer::new(1000).unwrap();
    assert_eq!(m.sample_count(), 1024);
    let m = Mixer::new(1024).unwrap();
    assert_eq!(m.sample_count(), 1024);
    let m = Mixer::new(1).unwrap();
    assert_eq!(m.sample_count(), 64);
    assert_eq!(align_sample_count(DEFAULT_SAMPLE_COUNT), 1024);
    assert_eq!(align_sample_count(65), 128);
    assert_eq!(align_sample_count(0), 0);
}

#[test]
fn allocation_succeeds_exactly_max_channels_times() {
    let mut m = Mixer::new(64).unwrap();
    for k in 0..MAX_CHANNELS {
        let h = m.alloc_channel(full_volume()).unwrap();
        assert_eq!(h.0 as usize, k);
    }
    assert_eq!(m.alloc_channel(full_volume()), Err(MixerError::NoFreeChannels));
}

#[test]
fn freeing_then_allocating_reuses_the_lowest_freed_index() {
    let mut m = Mixer::new(64).unwrap();
    for _ in 0..MAX_CHANNELS {
        m.alloc_channel(full_volume()).unwrap();
    }
    m.free_channel(ChannelHandle(3)).unwrap();
    let h = m.alloc_channel(full_volume()).unwrap();
    assert_eq!(h.0, 3);
    // Freeing two and allocating again picks the lower index first.
    m.free_channel(ChannelHandle(6)).unwrap();
    m.free_channel(ChannelHandle(1)).unwrap();
    let h = m.alloc_channel(full_volume()).unwrap();
    assert_eq!(h.0, 1);
    let h = m.alloc_channel(full_volume()).unwrap();
    assert_eq!(h.0, 6);
}

#[test]
fn mixing_all_idle_channels_is_silence() {
    let mut m = Mixer::new(64).unwrap();
    for _ in 0..4 {
        m.alloc_channel(full_volume()).unwrap();
    }
    let mut out = vec![123i16; 128];
    m.mix_into(&mut out);
    assert!(out.iter().all(|&s| s == 0));
}

#[test]
fn two_constant_channels_mix_to_their_sum() {
    let mut m = Mixer::new(64).unwrap();
    let h1 = m.alloc_channel(full_volume()).unwrap();
    let h2 = m.alloc_channel(full_volume()).unwrap();
    let v1 = 1000i16;
    let v2 = 2345i16;
    m.submit_samples(h1, &constant_buffer(64, v1)).unwrap();
    m.submit_samples(h2, &constant_buffer(64, v2)).unwrap();
    let mut out = vec![0i16; 128];
    m.mix_into(&mut out);
    assert!(out.iter().all(|&s| s == v1 + v2));
}

#[test]
fn near_maximum_channels_saturate_instead_of_wrapping() {
    let mut m = Mixer::new(64).unwrap();
    let h1 = m.alloc_channel(full_volume()).unwrap();
    let h2 = m.alloc_channel(full_volume()).unwrap();
    m.submit_samples(h1, &constant_buffer(64, 32000)).unwrap();
    m.submit_samples(h2, &constant_buffer(64, 32000)).unwrap();
    let mut out = vec![0i16; 128];
    m.mix_into(&mut out);
    assert!(out.iter().all(|&s| s == 32767));

    // And at the negative bound.
    let mut m = Mixer::new(64).unwrap();
    let h1 = m.alloc_channel(full_volume()).unwrap();
    let h2 = m.alloc_channel(full_volume()).unwrap();
    m.submit_samples(h1, &constant_buffer(64, -32000)).unwrap();
    m.submit_samples(h2, &constant_buffer(64, -32000)).unwrap();
    let mut out = vec![0i16; 128];
    m.mix_into(&mut out);
    assert!(out.iter().all(|&s| s == -32768));
}

#[test]
fn fade_out_drives_the_channel_idle_by_the_nth_call() {
    let mut m = Mixer::new(64).unwrap();
    let h = m.alloc_channel(ChannelConfig { looping: true, ..full_volume() }).unwrap();
    m.submit_samples(h, &constant_buffer(64, 8000)).unwrap();
    // 4 divides the full fixed-point scale, so the fade ends exactly at
    // the 4th mix call.
    m.fade_out(h, 4).unwrap();
    let mut out = vec![0i16; 128];
    for call in 0..4 {
        assert_ne!(m.channels[h.0 as usize].state, ChannelState::Idle, "call {call}");
        m.mix_into(&mut out);
    }
    assert_eq!(m.channels[h.0 as usize].state, ChannelState::Idle);
    // After that the channel contributes silence.
    m.mix_into(&mut out);
    assert!(out.iter().all(|&s| s == 0));
}

#[test]
fn fade_out_zero_frames_cuts_immediately() {
    let mut m = Mixer::new(64).unwrap();
    let h = m.alloc_channel(full_volume()).unwrap();
    m.submit_samples(h, &constant_buffer(64, 8000)).unwrap();
    m.fade_out(h, 0).unwrap();
    assert_eq!(m.channels[h.0 as usize].state, ChannelState::Idle);
    assert_eq!(m.channels[h.0 as usize].fade_level, 0);
}

#[test]
fn fade_in_ramps_to_full_scale_and_holds() {
    let mut m = Mixer::new(64).unwrap();
    let h = m.alloc_channel(full_volume()).unwrap();
    m.submit_samples(h, &constant_buffer(1024, 10000)).unwrap();
    m.fade_in(h, 2).unwrap();
    assert_eq!(m.channels[h.0 as usize].fade_level, 0);
    let mut out = vec![0i16; 128];
    // First pass mixes at fade level 0: silence.
    m.mix_into(&mut out);
    assert!(out.iter().all(|&s| s == 0));
    m.mix_into(&mut out);
    assert_eq!(m.channels[h.0 as usize].fade_level, FADE_MAX_FP);
    assert_eq!(m.channels[h.0 as usize].fade_step, 0);
    assert_eq!(m.channels[h.0 as usize].state, ChannelState::Playing);
}

#[test]
fn non_looping_channel_idles_exactly_at_buffer_end() {
    let mut m = Mixer::new(64).unwrap();
    let h = m.alloc_channel(full_volume()).unwrap();
    // 4 stereo frames; each mix call consumes 2.
    m.submit_samples(h, &constant_buffer(4, 5)).unwrap();
    let mut out = vec![0i16; 4];
    m.mix_into(&mut out);
    assert_eq!(m.channels[h.0 as usize].state, ChannelState::Playing);
    assert_eq!(m.channels[h.0 as usize].position, 2);
    m.mix_into(&mut out);
    // The cursor sits exactly at the end but the pass never ran past it.
    assert_eq!(m.channels[h.0 as usize].state, ChannelState::Playing);
    assert_eq!(m.channels[h.0 as usize].position, 4);
    m.mix_into(&mut out);
    assert_eq!(m.channels[h.0 as usize].state, ChannelState::Idle);
    assert!(out.iter().all(|&s| s == 0));
}

#[test]
fn looping_channel_wraps_instead_of_idling() {
    let mut m = Mixer::new(64).unwrap();
    let h = m.alloc_channel(ChannelConfig { looping: true, ..full_volume() }).unwrap();
    // 2 stereo frames, mixed 3 frames per call: the wrap frame is silent.
    m.submit_samples(h, &[7, 7, 7, 7]).unwrap();
    let mut out = vec![0i16; 6];
    m.mix_into(&mut out);
    assert_eq!(m.channels[h.0 as usize].state, ChannelState::Playing);
    assert_eq!(m.channels[h.0 as usize].position, 0);
    assert_eq!(out, vec![7, 7, 7, 7, 0, 0]);
    m.mix_into(&mut out);
    assert_eq!(m.channels[h.0 as usize].state, ChannelState::Playing);
}

#[test]
fn submit_resets_position_and_plays() {
    let mut m = Mixer::new(64).unwrap();
    let h = m.alloc_channel(full_volume()).unwrap();
    assert_eq!(m.channels[h.0 as usize].state, ChannelState::Idle);
    m.submit_samples(h, &constant_buffer(8, 1)).unwrap();
    assert_eq!(m.channels[h.0 as usize].position, 0);
    assert_eq!(m.channels[h.0 as usize].state, ChannelState::Playing);
}

#[test]
fn submit_to_a_free_slot_is_rejected() {
    let mut m = Mixer::new(64).unwrap();
    assert_eq!(
        m.submit_samples(ChannelHandle(0), &constant_buffer(4, 1)),
        Err(MixerError::InvalidChannel)
    );
    assert_eq!(
        m.submit_samples(ChannelHandle(9), &constant_buffer(4, 1)),
        Err(MixerError::InvalidChannel)
    );
}

#[test]
fn out_of_range_handles_are_rejected() {
    let mut m = Mixer::new(64).unwrap();
    let bad = ChannelHandle(MAX_CHANNELS as u8);
    assert_eq!(m.free_channel(bad), Err(MixerError::InvalidChannel));
    assert_eq!(m.set_channel_volume(bad, 1, 1), Err(MixerError::InvalidChannel));
    assert_eq!(m.fade_out(bad, 8), Err(MixerError::InvalidChannel));
    assert_eq!(m.fade_in(bad, 8), Err(MixerError::InvalidChannel));
}

#[test]
fn master_volume_is_clamped_but_channel_volume_is_not() {
    let mut m = Mixer::new(64).unwrap();
    m.set_master_volume(0x9000);
    assert_eq!(m.master_volume(), 0x8000);
    m.set_master_volume(0x1234);
    assert_eq!(m.master_volume(), 0x1234);
    let h = m.alloc_channel(full_volume()).unwrap();
    m.set_channel_volume(h, 0x9999, -5).unwrap();
    assert_eq!(m.channels[h.0 as usize].config.volume_left, 0x9999);
    assert_eq!(m.channels[h.0 as usize].config.volume_right, -5);
}

#[test]
fn master_volume_scales_with_truncating_division() {
    let mut m = Mixer::new(64).unwrap();
    let h = m.alloc_channel(full_volume()).unwrap();
    m.submit_samples(h, &constant_buffer(64, 1001)).unwrap();
    m.set_master_volume(0x4000);
    let mut out = vec![0i16; 128];
    m.mix_into(&mut out);
    // 1001 * 0x4000 / 0x8000 truncates to 500.
    assert!(out.iter().all(|&s| s == 500));
}

#[test]
fn panning_scales_each_side_by_its_own_volume() {
    let mut m = Mixer::new(64).unwrap();
    let h = m.alloc_channel(full_volume()).unwrap();
    m.set_channel_volume(h, 0x8000, 0x2000).unwrap();
    m.submit_samples(h, &constant_buffer(64, 1000)).unwrap();
    let mut out = vec![0i16; 128];
    m.mix_into(&mut out);
    for i in 0..64 {
        assert_eq!(out[2 * i], 1000);
        assert_eq!(out[2 * i + 1], 250);
    }
}

#[test]
fn empty_buffer_degrades_to_idle_silence() {
    let mut m = Mixer::new(64).unwrap();
    let h = m.alloc_channel(full_volume()).unwrap();
    m.submit_samples(h, &[]).unwrap();
    assert_eq!(m.channels[h.0 as usize].state, ChannelState::Playing);
    let mut out = vec![0i16; 16];
    m.mix_into(&mut out);
    assert_eq!(m.channels[h.0 as usize].state, ChannelState::Idle);
    assert!(out.iter().all(|&s| s == 0));
}

#[test]
fn hardware_channel_lifecycle_is_idempotent() {
    let mut m = Mixer::new(64).unwrap();
    assert_eq!(m.output_params(128), Err(MixerError::AudioError(-1)));
    assert_eq!(m.accept_hw_channel(-7), Err(MixerError::AudioError(-7)));
    m.accept_hw_channel(3).unwrap();
    assert_eq!(m.output_params(128), Ok(3));
    assert_eq!(m.output_params(127), Err(MixerError::AudioError(-1)));
    assert_eq!(m.release_hw_channel(), Some(3));
    assert_eq!(m.release_hw_channel(), None);
    assert_eq!(m.output_params(128), Err(MixerError::AudioError(-1)));
}

#[test]
fn free_channel_discards_the_buffer() {
    let mut m = Mixer::new(64).unwrap();
    let h = m.alloc_channel(full_volume()).unwrap();
    m.submit_samples(h, &constant_buffer(16, 3)).unwrap();
    m.free_channel(h).unwrap();
    assert_eq!(m.channels[h.0 as usize].state, ChannelState::Free);
    assert!(m.channels[h.0 as usize].buffer.is_empty());
    assert_eq!(m.channels[h.0 as usize].position, 0);
}

#[test]
fn fade_out_truncation_can_spill_into_one_extra_call() {
    // 3 does not divide the full fixed-point scale: the per-call step
    // truncates to floor(FADE_MAX_FP / 3), which leaves a level of 1
    // after 3 calls, so the channel goes Idle on the 4th call.
    let mut m = Mixer::new(64).unwrap();
    let h = m.alloc_channel(ChannelConfig { looping: true, ..full_volume() }).unwrap();
    m.submit_samples(h, &constant_buffer(64, 4000)).unwrap();
    m.fade_out(h, 3).unwrap();
    let mut out = vec![0i16; 128];
    for _ in 0..3 {
        m.mix_into(&mut out);
    }
    assert_eq!(m.channels[h.0 as usize].state, ChannelState::FadingOut);
    assert_eq!(m.channels[h.0 as usize].fade_level, 1);
    m.mix_into(&mut out);
    assert_eq!(m.channels[h.0 as usize].state, ChannelState::Idle);
}

#[test]
fn fading_out_level_clamps_at_full_scale() {
    // A fade-in issued on a FadingOut channel keeps the state but makes
    // the step positive; the level then clamps at full scale instead of
    // running past it.
    let mut m = Mixer::new(64).unwrap();
    let h = m.alloc_channel(full_volume()).unwrap();
    m.submit_samples(h, &constant_buffer(1024, 100)).unwrap();
    m.fade_out(h, 1).unwrap();
    m.fade_in(h, 1).unwrap();
    assert_eq!(m.channels[h.0 as usize].state, ChannelState::FadingOut);
    assert_eq!(m.channels[h.0 as usize].fade_level, 0);
    let mut out = vec![0i16; 128];
    m.mix_into(&mut out);
    assert_eq!(m.channels[h.0 as usize].fade_level, FADE_MAX_FP);
    m.mix_into(&mut out);
    assert_eq!(m.channels[h.0 as usize].fade_level, FADE_MAX_FP);
    assert_eq!(m.channels[h.0 as usize].state, ChannelState::FadingOut);
}

#[test]
fn submit_restores_full_fade_level() {
    let mut m = Mixer::new(64).unwrap();
    let h = m.alloc_channel(full_volume()).unwrap();
    m.submit_samples(h, &constant_buffer(64, 6000)).unwrap();
    // Cut the channel: the level drops to 0 and the slot goes Idle.
    m.fade_out(h, 0).unwrap();
    assert_eq!(m.channels[h.0 as usize].fade_level, 0);
    // A fresh submission plays at full scale again.
    m.submit_samples(h, &constant_buffer(64, 6000)).unwrap();
    assert_eq!(m.channels[h.0 as usize].fade_level, FADE_MAX_FP);
    let mut out = vec![0i16; 128];
    m.mix_into(&mut out);
    assert!(out.iter().all(|&s| s == 6000));
}
