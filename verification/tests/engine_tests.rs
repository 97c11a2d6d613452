use audio_engine::engine::CommandOutcome;
use audio_engine::engine::PlayAction;
use audio_engine::engine::TickAction;
use audio_engine::engine::MAX_FADE_MS;
use audio_engine::fixed::UNIT;
use audio_engine::CrossfadeAudioPlayer;
use audio_engine::CrossfadeCommand;
use audio_engine::CrossfadeCurve;

#[test]
fn fresh_engine_is_idle() {
    let player = CrossfadeAudioPlayer::new();
    let info = player.get_track_info();
    assert!(!info.is_playing);
    assert!(!info.crossfade_active);
    assert_eq!(info.current_time_ms, 0);
    assert_eq!(info.duration_ms, 0);
    assert!(info.current_track.is_none());
    assert!(info.next_track.is_none());
    let config = player.get_crossfade_config();
    assert!(!config.enabled);
    assert_eq!(config.duration_ms, 3000);
    assert!(matches!(config.curve_type, CrossfadeCurve::EqualPower));
}

#[test]
fn play_replaces_and_reports_master_gain() {
    let mut player = CrossfadeAudioPlayer::new();
    player.set_volume(8000);
    let act = player.play("a.mp3".to_string(), 120_000, 10);
    assert!(matches!(act, PlayAction::Replace { gain: 8000 }));
    let info = player.get_track_info();
    assert!(info.is_playing);
    assert_eq!(info.duration_ms, 120_000);
    assert_eq!(info.current_time_ms, 0);
    assert_eq!(info.current_track.as_deref(), Some("a.mp3"));
    assert!(info.next_track.is_none());
    assert!(!info.crossfade_active);
}

#[test]
fn stop_resets_regardless_of_state() {
    let mut player = CrossfadeAudioPlayer::new();
    player.enable_crossfade(true);
    player.play("a.mp3".to_string(), 120_000, 0);
    player.play_with_crossfade("b.mp3".to_string(), 90_000, 1000);
    player.pause();
    player.stop();
    let info = player.get_track_info();
    assert!(!info.is_playing);
    assert_eq!(info.current_time_ms, 0);
    assert!(!info.crossfade_active);
    assert!(info.current_track.is_none());
    assert!(info.next_track.is_none());
}

#[test]
fn disabled_crossfade_degrades_to_plain_play() {
    let mut player = CrossfadeAudioPlayer::new();
    player.play("a.mp3".to_string(), 120_000, 0);
    // Crossfade stays disabled: the request must behave exactly like Play.
    let act = player.play_with_crossfade("b.mp3".to_string(), 90_000, 500);
    assert!(matches!(act, PlayAction::Replace { .. }));
    let info = player.get_track_info();
    assert!(!info.crossfade_active);
    assert_eq!(info.current_track.as_deref(), Some("b.mp3"));
    assert!(info.next_track.is_none());
    assert_eq!(info.duration_ms, 90_000);
    // And ticking never reports a crossfade.
    let mut player = player;
    assert!(matches!(player.fade_tick(600), TickAction::Idle));
    assert!(!player.get_track_info().crossfade_active);
}

#[test]
fn crossfade_runs_and_completes() {
    let mut player = CrossfadeAudioPlayer::new();
    player.set_volume(10_000);
    player.enable_crossfade(true);
    player.set_crossfade_duration(4000);
    player.play("a.mp3".to_string(), 120_000, 0);
    let act = player.play_with_crossfade("b.mp3".to_string(), 90_000, 1000);
    assert!(matches!(act, PlayAction::FadeIn));
    let info = player.get_track_info();
    assert!(info.crossfade_active);
    assert_eq!(info.crossfade_progress, 0);
    assert_eq!(info.current_track.as_deref(), Some("a.mp3"));
    assert_eq!(info.next_track.as_deref(), Some("b.mp3"));

    // Half way through the window: progress 0.5, equal-power gains at full
    // master volume.
    match player.fade_tick(3000) {
        TickAction::Mix { fade_out_gain, fade_in_gain } => {
            assert_eq!(fade_out_gain, 7071);
            assert_eq!(fade_in_gain, 7071);
        }
        other => panic!("expected Mix, got {other:?}"),
    }
    assert_eq!(player.get_track_info().crossfade_progress, UNIT / 2);

    // At (and past) the window's end the incoming source is promoted.
    match player.fade_tick(5000) {
        TickAction::Promote { gain } => assert_eq!(gain, 10_000),
        other => panic!("expected Promote, got {other:?}"),
    }
    let info = player.get_track_info();
    assert!(!info.crossfade_active);
    assert_eq!(info.crossfade_progress, UNIT);
    assert_eq!(info.current_track.as_deref(), Some("b.mp3"));
    assert!(info.next_track.is_none());
    assert_eq!(info.duration_ms, 90_000);
    assert_eq!(info.current_time_ms, 0);
}

#[test]
fn linear_crossfade_midpoint_gains() {
    let mut player = CrossfadeAudioPlayer::new();
    player.set_volume(10_000);
    player.enable_crossfade(true);
    player.set_crossfade_duration(2000);
    player.play("a.mp3".to_string(), 60_000, 0);
    player.config.curve_type = CrossfadeCurve::Linear;
    player.play_with_crossfade("b.mp3".to_string(), 60_000, 0);
    match player.fade_tick(1000) {
        TickAction::Mix { fade_out_gain, fade_in_gain } => {
            assert_eq!(fade_out_gain, 5000);
            assert_eq!(fade_in_gain, 5000);
        }
        other => panic!("expected Mix, got {other:?}"),
    }
}

#[test]
fn volume_is_deferred_during_crossfade() {
    let mut player = CrossfadeAudioPlayer::new();
    player.enable_crossfade(true);
    player.play("a.mp3".to_string(), 60_000, 0);
    // Not fading: the clamped gain is applied at once.
    assert_eq!(player.set_volume(12_000), Some(12_000));
    player.play_with_crossfade("b.mp3".to_string(), 60_000, 100);
    // Mid-fade: stored, not applied.
    assert_eq!(player.set_volume(6000), None);
    assert_eq!(player.master_volume, 6000);
    // Promotion restores the latest master volume.
    match player.fade_tick(100 + 3000) {
        TickAction::Promote { gain } => assert_eq!(gain, 6000),
        other => panic!("expected Promote, got {other:?}"),
    }
}

#[test]
fn volume_with_no_source_is_only_stored() {
    let mut player = CrossfadeAudioPlayer::new();
    assert_eq!(player.set_volume(9000), None);
    assert_eq!(player.master_volume, 9000);
    // Out-of-range requests are clamped.
    player.set_volume(-3);
    assert_eq!(player.master_volume, 0);
    player.set_volume(1_000_000);
    assert_eq!(player.master_volume, 20_000);
}

#[test]
fn crossfade_window_is_clamped() {
    let mut player = CrossfadeAudioPlayer::new();
    player.set_crossfade_duration(0);
    assert_eq!(player.get_crossfade_config().duration_ms, 1);
    player.set_crossfade_duration(MAX_FADE_MS + 77);
    assert_eq!(player.get_crossfade_config().duration_ms, MAX_FADE_MS);
    player.set_crossfade_duration(2500);
    assert_eq!(player.get_crossfade_config().duration_ms, 2500);
}

#[test]
fn pause_and_resume_toggle_playback() {
    let mut player = CrossfadeAudioPlayer::new();
    player.play("a.mp3".to_string(), 60_000, 0);
    assert!(player.get_track_info().is_playing);
    player.pause();
    assert!(!player.get_track_info().is_playing);
    player.resume();
    assert!(player.get_track_info().is_playing);
}

#[test]
fn commands_drive_the_engine() {
    let mut player = CrossfadeAudioPlayer::new();
    // A play whose file could not be opened changes nothing.
    let outcome = player.apply_command(CrossfadeCommand::Play("a.mp3".to_string()), None, 0);
    assert!(matches!(outcome, CommandOutcome::Quiet));
    assert!(!player.get_track_info().is_playing);
    // A successful open starts the sink at the master volume.
    let outcome =
        player.apply_command(CrossfadeCommand::Play("a.mp3".to_string()), Some(120_000), 0);
    assert!(matches!(outcome, CommandOutcome::StartSink { gain: 5000 }));
    assert_eq!(player.get_track_info().duration_ms, 120_000);
    // Seek is accepted and ignored by the crossfade engine.
    let outcome = player.apply_command(CrossfadeCommand::Seek(10_000), None, 5);
    assert!(matches!(outcome, CommandOutcome::Quiet));
    assert_eq!(player.get_track_info().current_time_ms, 0);
    // Enable, then a crossfade play keeps the primary and starts incoming.
    player.apply_command(CrossfadeCommand::EnableCrossfade(true), None, 6);
    let outcome = player.apply_command(
        CrossfadeCommand::PlayWithCrossfade("b.mp3".to_string(), 2500),
        Some(90_000),
        7,
    );
    assert!(matches!(outcome, CommandOutcome::StartIncoming));
    assert!(player.get_track_info().crossfade_active);
    // Stop tears everything down.
    player.apply_command(CrossfadeCommand::Stop, None, 8);
    let info = player.get_track_info();
    assert!(!info.is_playing && !info.crossfade_active);
    assert_eq!(info.current_time_ms, 0);
}
