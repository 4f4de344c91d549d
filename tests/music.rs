use gba_runtime::audio::music::{MusicPlayer, AUDIO_BUFFER_SIZE};

#[test]
fn music_fills_back_half_and_loops() {
    let source: Vec<u8> = (0..500u32).map(|i| (i % 251) as u8).collect();
    let mut player = MusicPlayer::take(source.clone());
    assert!(player.audio_buffers().iter().all(|s| *s == 0));
    // Playing the first half: the second is filled.
    player.fill_next_buffer();
    let bufs = player.audio_buffers().clone();
    assert_eq!(&bufs[AUDIO_BUFFER_SIZE..], &source[0..AUDIO_BUFFER_SIZE]);
    assert!(bufs[..AUDIO_BUFFER_SIZE].iter().all(|s| *s == 0));
    assert!(!player.swap_buffers());
    // Playing the second half: the first is filled, wrapping past the end.
    player.fill_next_buffer();
    let bufs = player.audio_buffers().clone();
    let expected: Vec<u8> = (0..AUDIO_BUFFER_SIZE).map(|k| source[(AUDIO_BUFFER_SIZE + k) % 500]).collect();
    assert_eq!(&bufs[..AUDIO_BUFFER_SIZE], &expected[..]);
    assert!(player.swap_buffers());
    player.fill_next_buffer();
    let bufs = player.audio_buffers().clone();
    let expected: Vec<u8> = (0..AUDIO_BUFFER_SIZE).map(|k| source[(2 * AUDIO_BUFFER_SIZE + k) % 500]).collect();
    assert_eq!(&bufs[AUDIO_BUFFER_SIZE..], &expected[..]);
}

#[test]
fn music_source_exactly_one_buffer() {
    let source: Vec<u8> = (1..=AUDIO_BUFFER_SIZE as u32).map(|i| (i % 256) as u8).collect();
    let mut player = MusicPlayer::take(source.clone());
    player.fill_next_buffer();
    player.swap_buffers();
    player.fill_next_buffer();
    let bufs = player.audio_buffers().clone();
    assert_eq!(&bufs[..AUDIO_BUFFER_SIZE], &source[..]);
    assert_eq!(&bufs[AUDIO_BUFFER_SIZE..], &source[..]);
}
