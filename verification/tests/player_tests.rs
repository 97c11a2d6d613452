use audio_engine::decode::decode_step;
use audio_engine::decode::first_usable_track;
use audio_engine::decode::DecodeEvent;
use audio_engine::decode::DecodeProgress;
use audio_engine::decode::LoopAction;
use audio_engine::fixed::UNIT;
use audio_engine::SymphoniaPlayer;

#[test]
fn play_returns_probed_duration() {
    // A file that decodes to 120.0 seconds: play reports 120.0 s and the
    // duration read immediately afterwards agrees.
    let mut player = SymphoniaPlayer::new();
    let duration = player.play("a.mp3".to_string(), 120_000);
    assert_eq!(duration, 120_000);
    assert_eq!(player.get_duration(), 120_000);
    assert_eq!(player.get_current_time(), 0);
    assert!(player.is_playing());
    assert_eq!(player.state.file_path.as_deref(), Some("a.mp3"));
}

#[test]
fn fresh_player_defaults() {
    let player = SymphoniaPlayer::new();
    assert!(!player.is_playing());
    assert_eq!(player.get_current_time(), 0);
    assert_eq!(player.get_duration(), 0);
    assert_eq!(player.state.volume, UNIT);
    assert!(!player.stop_requested());
}

#[test]
fn seek_lands_on_target_when_applied() {
    let mut player = SymphoniaPlayer::new();
    player.play("a.mp3".to_string(), 120_000);
    player.seek(30_000);
    // The pending request is applied on the next decode iteration: the
    // published clock jumps to the target exactly.
    let target = player.apply_pending_seek();
    assert_eq!(target, Some(30_000));
    assert_eq!(player.get_current_time(), 30_000);
    // Applied once: a second poll finds nothing pending.
    assert_eq!(player.apply_pending_seek(), None);
    assert_eq!(player.get_current_time(), 30_000);
}

#[test]
fn seek_while_paused_does_not_resume() {
    let mut player = SymphoniaPlayer::new();
    player.play("a.mp3".to_string(), 120_000);
    player.pause();
    player.seek(10_000);
    player.apply_pending_seek();
    assert_eq!(player.get_current_time(), 10_000);
    assert!(!player.is_playing());
}

#[test]
fn stop_resets_clock_and_file() {
    let mut player = SymphoniaPlayer::new();
    player.play("a.mp3".to_string(), 120_000);
    player.seek(5000);
    player.apply_pending_seek();
    player.stop();
    assert!(!player.is_playing());
    assert_eq!(player.get_current_time(), 0);
    assert!(player.state.file_path.is_none());
    assert!(player.stop_requested());
}

#[test]
fn volume_is_clamped_on_store() {
    let mut player = SymphoniaPlayer::new();
    player.set_volume(15_000);
    assert_eq!(player.state.volume, 15_000);
    player.set_volume(-200);
    assert_eq!(player.state.volume, 0);
    player.set_volume(1_000_000);
    assert_eq!(player.state.volume, 20_000);
}

#[test]
fn rebase_keeps_time_continuous() {
    let mut progress = DecodeProgress::new(1, 44_100);
    progress.rebase(30_000);
    // 30 s at 44.1 kHz is exactly 1 323 000 frames, which maps back to
    // exactly 30 000 ms.
    assert_eq!(progress.frames_decoded, 1_323_000);
    assert_eq!(progress.current_time_ms(), 30_000);
}

#[test]
fn matching_packets_advance_the_clock() {
    let mut player = SymphoniaPlayer::new();
    player.play("a.mp3".to_string(), 10_000);
    let mut progress = DecodeProgress::new(7, 1000);
    // A packet of another track is skipped without advancing time.
    let act = decode_step(&mut player, &mut progress, &DecodeEvent::Packet {
        track_id: 3,
        frames: 999,
    });
    assert_eq!(act, LoopAction::Continue);
    assert_eq!(player.get_current_time(), 0);
    // A matching packet advances: 500 frames at 1 kHz are 500 ms.
    let act = decode_step(&mut player, &mut progress, &DecodeEvent::Packet {
        track_id: 7,
        frames: 500,
    });
    assert_eq!(act, LoopAction::Continue);
    assert_eq!(player.get_current_time(), 500);
    // A transient decode error skips the packet and goes on.
    let act = decode_step(&mut player, &mut progress, &DecodeEvent::DecodeFailed);
    assert_eq!(act, LoopAction::Continue);
    assert_eq!(player.get_current_time(), 500);
    // End of stream finishes the loop; the caller records the end.
    let act = decode_step(&mut player, &mut progress, &DecodeEvent::EndOfStream);
    assert_eq!(act, LoopAction::Finish);
    player.finish_playback();
    assert!(!player.is_playing());
    assert_eq!(player.get_current_time(), 500);
}

#[test]
fn stream_level_failures_finish_the_loop() {
    let mut player = SymphoniaPlayer::new();
    let mut progress = DecodeProgress::new(0, 48_000);
    for event in [
        DecodeEvent::DecoderFatal,
        DecodeEvent::ResetRequired,
        DecodeEvent::IoFailed,
        DecodeEvent::FormatFailed,
    ] {
        assert_eq!(decode_step(&mut player, &mut progress, &event), LoopAction::Finish);
    }
}

#[test]
fn first_usable_track_skips_null_codecs() {
    assert_eq!(first_usable_track(&vec![]), None);
    assert_eq!(first_usable_track(&vec![0, 0]), None);
    assert_eq!(first_usable_track(&vec![3]), Some(0));
    assert_eq!(first_usable_track(&vec![0, 0, 5, 9]), Some(2));
}
