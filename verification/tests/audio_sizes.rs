use henry_whisper::audio::{
    downmixed_len, resampled_len, AudioPlayer, SoundAssets, SoundEffect, TRANSCRIPTION_CHANNELS,
    TRANSCRIPTION_SAMPLE_RATE,
};

#[test]
fn resamples_to_target_rate() {
    assert_eq!(resampled_len(48_000, 48_000, TRANSCRIPTION_SAMPLE_RATE), TRANSCRIPTION_SAMPLE_RATE as usize);
    assert_eq!(TRANSCRIPTION_CHANNELS, 1);
}

#[test]
fn resampling_rounds_up_and_keeps_degenerate_inputs() {
    assert_eq!(resampled_len(5, 3, 2), 4);
    assert_eq!(resampled_len(3, 3, 2), 2);
    assert_eq!(resampled_len(0, 48_000, 16_000), 0);
    assert_eq!(resampled_len(10, 0, 16_000), 10);
    assert_eq!(resampled_len(10, 16_000, 16_000), 10);
    assert_eq!(resampled_len(1, 44_100, 16_000), 1);
}

#[test]
fn downmixing_counts_whole_frames() {
    assert_eq!(downmixed_len(6, 2), 3);
    assert_eq!(downmixed_len(7, 2), 3);
    assert_eq!(downmixed_len(7, 1), 7);
    assert_eq!(downmixed_len(7, 0), 7);
    assert_eq!(downmixed_len(9, 4), 2);
}

#[test]
fn each_cue_has_its_own_file() {
    let assets = SoundAssets {
        record: vec![1],
        transcribe_start: vec![2, 2],
        transcribe: vec![3, 3, 3],
        cancel: vec![4, 4, 4, 4],
    };
    assert_eq!(SoundEffect::Record.bytes(&assets), &[1u8][..]);
    assert_eq!(SoundEffect::TranscribeStart.bytes(&assets), &[2u8, 2][..]);
    assert_eq!(SoundEffect::Transcribe.bytes(&assets), &[3u8, 3, 3][..]);
    assert_eq!(SoundEffect::Cancel.bytes(&assets), &[4u8, 4, 4, 4][..]);
}

#[test]
fn player_hands_effects_to_its_thread_in_order() {
    let (tx, rx) = std::sync::mpsc::channel();
    let player = AudioPlayer::from_sender(tx);
    player.play(SoundEffect::Record);
    player.play(SoundEffect::Cancel);
    assert!(matches!(rx.recv().unwrap(), SoundEffect::Record));
    assert!(matches!(rx.recv().unwrap(), SoundEffect::Cancel));
    drop(rx);
    // a player whose thread is gone drops effects without failing
    player.play(SoundEffect::Transcribe);
}

#[test]
fn handle_feeds_the_same_player_thread() {
    let (tx, rx) = std::sync::mpsc::channel();
    let player = AudioPlayer::from_sender(tx);
    let other = player.handle();
    other.play(SoundEffect::TranscribeStart);
    player.play(SoundEffect::Transcribe);
    assert!(matches!(rx.recv().unwrap(), SoundEffect::TranscribeStart));
    assert!(matches!(rx.recv().unwrap(), SoundEffect::Transcribe));
}
