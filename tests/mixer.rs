use gba_runtime::audio::mixer::{mix_sample, AudioMixer, AudioSource, AudioVolume};
use gba_runtime::audio::music::AUDIO_BUFFER_SIZE;

#[test]
fn mix_sample_scales_and_clips() {
    // 64 * 63 / 64 = 63, plus 10.
    assert_eq!(mix_sample(10, 64, 63), 73);
    // -1 at volume 63: -63 / 64 rounds down to -1.
    assert_eq!(mix_sample(0, 0xFF, 63), 0xFF);
    // Clipping at the top and bottom.
    assert_eq!(mix_sample(120, 127, 63), 127);
    assert_eq!(mix_sample(0x80, 0x80, 63), 0x80);
    // Silence changes nothing.
    assert_eq!(mix_sample(0x90, 0, 40), 0x90);
    // Volume zero adds nothing.
    assert_eq!(mix_sample(5, 100, 0), 5);
}

#[test]
fn mixer_fills_back_half_from_both_channels() {
    let mut mixer = AudioMixer::new();
    let music: Vec<u8> = vec![64; 400];
    mixer.set_channel_1(AudioSource::new(music, AudioVolume::new(63), true));
    let effect: Vec<u8> = vec![64; 10];
    mixer.set_channel_2(AudioSource::new(effect, AudioVolume::new(32), false));
    mixer.fill_next_buffer();
    let bufs = mixer.audio_buffers().clone();
    assert!(bufs[..AUDIO_BUFFER_SIZE].iter().all(|s| *s == 0));
    // 63 from the music plus 32 from the effect for the first ten samples.
    assert!(bufs[AUDIO_BUFFER_SIZE..AUDIO_BUFFER_SIZE + 10].iter().all(|s| *s == 95));
    assert!(bufs[AUDIO_BUFFER_SIZE + 10..].iter().all(|s| *s == 63));
    assert!(!mixer.swap_buffers());
    assert!(mixer.audio_buffers()[..AUDIO_BUFFER_SIZE].iter().all(|s| *s == 0));
    mixer.fill_next_buffer();
    // The effect ran out and was dropped; the music loops.
    assert!(mixer.audio_buffers()[..AUDIO_BUFFER_SIZE].iter().all(|s| *s == 63));
    assert!(mixer.swap_buffers());
    assert!(mixer.audio_buffers()[AUDIO_BUFFER_SIZE..].iter().all(|s| *s == 0));
}

#[test]
fn source_chunks_loop_or_end() {
    let samples: Vec<u8> = (0..310u32).map(|i| (i % 200) as u8).collect();
    let source = AudioSource::new(samples.clone(), AudioVolume::new(1), true);
    let (first, rest) = source.next_chunk();
    assert_eq!(&first[..], &samples[..AUDIO_BUFFER_SIZE]);
    let (second, rest) = rest.unwrap().next_chunk();
    assert_eq!(&second[..6], &samples[AUDIO_BUFFER_SIZE..]);
    assert_eq!(&second[6..], &samples[..AUDIO_BUFFER_SIZE - 6]);
    assert!(rest.is_some());
    let once = AudioSource::new(vec![9; 5], AudioVolume::new(1), false);
    let (chunk, rest) = once.next_chunk();
    assert_eq!(&chunk[..5], &[9; 5]);
    assert!(chunk[5..].iter().all(|s| *s == 0));
    assert!(rest.is_none());
}
