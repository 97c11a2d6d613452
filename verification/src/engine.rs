//! The dual-source crossfade engine: the command-driven state machine that
//! owns transport state, at most one `Primary` and one `Incoming` source, and
//! the timer that ramps their gains through a configurable curve.
//!
//! The engine here is the decision core. The surrounding process performs the
//! outside work (opening files, creating sinks, sleeping between polls) and
//! feeds each decision function the command, the probed duration and a
//! monotonic clock reading; the returned action says what to apply to the
//! real sinks.

use vstd::arithmetic::div_mod::lemma_multiply_divide_lt;
use vstd::prelude::*;

use crate::curve::crossfade_gains;
use crate::curve::fade_in_spec;
use crate::curve::fade_out_spec;
use crate::curve::CrossfadeCurve;
use crate::fixed::clamp_volume;
use crate::fixed::clamped_volume;
use crate::fixed::MAX_VOLUME;
use crate::fixed::UNIT;

verus! {

/// Longest accepted crossfade window: one hour, in milliseconds. Bounding the
/// window keeps the progress arithmetic `elapsed * UNIT` inside `u64`.
pub const MAX_FADE_MS: u64 = 3600000;

/// Per-engine crossfade configuration, read on every mixing tick.
#[derive(Debug, Clone, Copy)]
pub struct CrossfadeConfig {
    pub enabled: bool,
    /// Length of the transition window in milliseconds; always in
    /// `[1, MAX_FADE_MS]`.
    pub duration_ms: u64,
    pub curve_type: CrossfadeCurve,
}

impl Default for CrossfadeConfig {
    /// Crossfade starts disabled, with a three-second equal-power window.
    fn default() -> (c: CrossfadeConfig)
        ensures
            !c.enabled,
            c.duration_ms == 3000,
            c.curve_type == CrossfadeCurve::EqualPower,
    {
        CrossfadeConfig { enabled: false, duration_ms: 3000, curve_type: CrossfadeCurve::EqualPower }
    }
}

/// The read-model recomputed each tick and handed to callers as a snapshot.
#[derive(Debug, Clone)]
pub struct CrossfadeTrackInfo {
    pub duration_ms: u64,
    pub current_time_ms: u64,
    pub is_playing: bool,
    pub crossfade_active: bool,
    /// Transition progress scaled by `UNIT`: `0` at the start, `UNIT` once
    /// the fade has completed.
    pub crossfade_progress: u64,
    pub current_track: Option<String>,
    pub next_track: Option<String>,
}

/// One playing source: the path it plays, its probed duration, and the clock
/// reading at which it started (its time base).
#[derive(Debug, Clone)]
pub struct ActiveSource {
    pub file_path: String,
    pub duration_ms: u64,
    pub started_at_ms: u64,
}

/// What the mixer must apply to the real sinks after a tick.
#[derive(Debug, Clone, Copy)]
pub enum TickAction {
    /// No crossfade is running; nothing to apply.
    Idle,
    /// Mid-fade: apply `fade_out_gain` to the primary sink and
    /// `fade_in_gain` to the incoming sink.
    Mix { fade_out_gain: u64, fade_in_gain: u64 },
    /// The fade has completed: stop the old primary sink and set the
    /// promoted sink's gain to `gain`.
    Promote { gain: u64 },
}

/// How a play request was handled.
#[derive(Debug, Clone, Copy)]
pub enum PlayAction {
    /// The previous sources were torn down; start the new sink at `gain`.
    Replace { gain: u64 },
    /// A crossfade began: keep the primary sink and start the incoming sink
    /// at gain `0`.
    FadeIn,
}

/// One message on the engine's FIFO command queue. Times are milliseconds,
/// gains fixed-point. Commands are fire-and-forget: the owning thread
/// applies at most one per poll, in arrival order, and none is ever
/// rejected for arriving in the wrong state.
#[derive(Debug, Clone)]
pub enum CrossfadeCommand {
    Play(String),
    PlayWithCrossfade(String, u64),
    Pause,
    Resume,
    Stop,
    Seek(u64),
    SetVolume(i64),
    SetCrossfadeDuration(u64),
    EnableCrossfade(bool),
}

/// What applying one command asks of the real sinks.
#[derive(Debug, Clone, Copy)]
pub enum CommandOutcome {
    /// Nothing to apply outside the state machine.
    Quiet,
    /// Tear the old sinks down and start the opened one at `gain`.
    StartSink { gain: u64 },
    /// Keep the primary sink; start the opened one as incoming at gain `0`.
    StartIncoming,
    /// Set the primary sink's gain.
    ApplyGain { gain: u64 },
}

/// The crossfade-capable playback engine's state.
pub struct CrossfadeAudioPlayer {
    pub info: CrossfadeTrackInfo,
    pub config: CrossfadeConfig,
    /// Stored master volume, clamped to `[0, MAX_VOLUME]`.
    pub master_volume: u64,
    pub primary: Option<ActiveSource>,
    pub incoming: Option<ActiveSource>,
    /// Clock reading at which the running crossfade began, if one is active.
    pub fade_started_at_ms: Option<u64>,
}

impl CrossfadeAudioPlayer {
    /// Internal consistency: volume and progress in range, the fade window
    /// bounded, and the crossfade timer only runs while both sources exist.
    pub open spec fn wf(self) -> bool {
        &&& self.master_volume <= MAX_VOLUME
        &&& self.info.crossfade_progress <= UNIT
        &&& 1 <= self.config.duration_ms <= MAX_FADE_MS
        &&& (self.fade_started_at_ms is Some ==> self.incoming is Some && self.primary is Some)
        &&& self.info.crossfade_active == (self.fade_started_at_ms is Some)
    }

    /// A crossfade is in flight: timer running with both sources present.
    pub open spec fn fade_active(self) -> bool {
        self.fade_started_at_ms is Some && self.incoming is Some && self.primary is Some
    }

    /// State after a plain (full-replace) play of `path`.
    pub open spec fn spec_play(self, path: String, duration_ms: u64, now_ms: u64)
        -> CrossfadeAudioPlayer {
        CrossfadeAudioPlayer {
            info: CrossfadeTrackInfo {
                duration_ms,
                current_time_ms: 0,
                is_playing: true,
                crossfade_active: false,
                crossfade_progress: self.info.crossfade_progress,
                current_track: Some(path),
                next_track: None,
            },
            primary: Some(ActiveSource { file_path: path, duration_ms, started_at_ms: now_ms }),
            incoming: None,
            fade_started_at_ms: None,
            ..self
        }
    }

    /// State after a crossfade towards `path` has begun at `now_ms`.
    pub open spec fn spec_start_fade(self, path: String, duration_ms: u64, now_ms: u64)
        -> CrossfadeAudioPlayer {
        CrossfadeAudioPlayer {
            info: CrossfadeTrackInfo {
                crossfade_active: true,
                crossfade_progress: 0,
                next_track: Some(path),
                ..self.info
            },
            incoming: Some(ActiveSource { file_path: path, duration_ms, started_at_ms: now_ms }),
            fade_started_at_ms: Some(now_ms),
            ..self
        }
    }

    /// State after a play-with-crossfade request: a fade begins only when
    /// crossfade is enabled and a primary source exists; otherwise the
    /// request degrades to a plain play.
    pub open spec fn spec_play_with_crossfade(self, path: String, duration_ms: u64, now_ms: u64)
        -> CrossfadeAudioPlayer {
        if self.config.enabled && self.primary is Some {
            self.spec_start_fade(path, duration_ms, now_ms)
        } else {
            self.spec_play(path, duration_ms, now_ms)
        }
    }

    /// State after a completed crossfade: the incoming source is promoted to
    /// primary with a fresh time base, the timer is cleared, and the
    /// bookkeeping rolls `next_track` over into `current_track`.
    pub open spec fn spec_complete_fade(self, now_ms: u64) -> CrossfadeAudioPlayer {
        CrossfadeAudioPlayer {
            info: CrossfadeTrackInfo {
                duration_ms: self.incoming->0.duration_ms,
                current_time_ms: 0,
                is_playing: self.info.is_playing,
                crossfade_active: false,
                crossfade_progress: UNIT,
                current_track: self.info.next_track,
                next_track: None,
            },
            primary: Some(
                ActiveSource {
                    file_path: self.incoming->0.file_path,
                    duration_ms: self.incoming->0.duration_ms,
                    started_at_ms: now_ms,
                },
            ),
            incoming: None,
            fade_started_at_ms: None,
            ..self
        }
    }

    /// State after one mixing tick at clock reading `now_ms`.
    pub open spec fn spec_tick(self, now_ms: u64) -> CrossfadeAudioPlayer {
        if self.fade_active() {
            let elapsed = now_ms - self.fade_started_at_ms->0;
            if elapsed < self.config.duration_ms {
                CrossfadeAudioPlayer {
                    info: CrossfadeTrackInfo {
                        crossfade_progress: (elapsed * UNIT / self.config.duration_ms as int) as u64,
                        ..self.info
                    },
                    ..self
                }
            } else {
                self.spec_complete_fade(now_ms)
            }
        } else {
            self
        }
    }

    /// State after one command has been applied. For the two play commands
    /// `opened` is the probed duration of the newly opened source, or
    /// nothing when the file could not be opened, in which case the command
    /// has no effect. A `Seek` is accepted and ignored, and the crossfade
    /// window a `PlayWithCrossfade` carries is superseded by the configured
    /// one.
    pub open spec fn spec_apply_command(
        self,
        cmd: CrossfadeCommand,
        opened: Option<u64>,
        now_ms: u64,
    ) -> CrossfadeAudioPlayer {
        match cmd {
            CrossfadeCommand::Play(path) => match opened {
                Some(duration_ms) => self.spec_play(path, duration_ms, now_ms),
                None => self,
            },
            CrossfadeCommand::PlayWithCrossfade(path, _window_ms) => match opened {
                Some(duration_ms) => self.spec_play_with_crossfade(path, duration_ms, now_ms),
                None => self,
            },
            CrossfadeCommand::Pause => CrossfadeAudioPlayer {
                info: CrossfadeTrackInfo { is_playing: false, ..self.info },
                ..self
            },
            CrossfadeCommand::Resume => CrossfadeAudioPlayer {
                info: CrossfadeTrackInfo { is_playing: true, ..self.info },
                ..self
            },
            CrossfadeCommand::Stop => self.spec_stop(),
            CrossfadeCommand::Seek(_) => self,
            CrossfadeCommand::SetVolume(gain) => CrossfadeAudioPlayer {
                master_volume: clamped_volume(gain as int),
                ..self
            },
            CrossfadeCommand::SetCrossfadeDuration(window_ms) => CrossfadeAudioPlayer {
                config: CrossfadeConfig {
                    duration_ms: if window_ms == 0 {
                        1u64
                    } else if window_ms > MAX_FADE_MS {
                        MAX_FADE_MS
                    } else {
                        window_ms
                    },
                    ..self.config
                },
                ..self
            },
            CrossfadeCommand::EnableCrossfade(enabled) => CrossfadeAudioPlayer {
                config: CrossfadeConfig { enabled, ..self.config },
                ..self
            },
        }
    }

    /// What applying a command asks of the real sinks.
    pub open spec fn spec_command_outcome(
        self,
        cmd: CrossfadeCommand,
        opened: Option<u64>,
    ) -> CommandOutcome {
        match cmd {
            CrossfadeCommand::Play(_) => match opened {
                Some(_) => CommandOutcome::StartSink { gain: self.master_volume },
                None => CommandOutcome::Quiet,
            },
            CrossfadeCommand::PlayWithCrossfade(_, _) => match opened {
                Some(_) => if self.config.enabled && self.primary is Some {
                    CommandOutcome::StartIncoming
                } else {
                    CommandOutcome::StartSink { gain: self.master_volume }
                },
                None => CommandOutcome::Quiet,
            },
            CrossfadeCommand::SetVolume(gain) => if self.primary is Some
                && !self.info.crossfade_active {
                CommandOutcome::ApplyGain { gain: clamped_volume(gain as int) }
            } else {
                CommandOutcome::Quiet
            },
            _ => CommandOutcome::Quiet,
        }
    }

    /// Apply one dequeued command, as [`Self::spec_apply_command`] says,
    /// and report what to do to the real sinks.
    pub fn apply_command(
        &mut self,
        cmd: CrossfadeCommand,
        opened_duration_ms: Option<u64>,
        now_ms: u64,
    ) -> (outcome: CommandOutcome)
        requires
            old(self).wf(),
        ensures
            final(self).wf(),
            *final(self) == old(self).spec_apply_command(cmd, opened_duration_ms, now_ms),
            outcome == old(self).spec_command_outcome(cmd, opened_duration_ms),
    {
        match cmd {
            CrossfadeCommand::Play(path) => match opened_duration_ms {
                Some(duration_ms) => {
                    let act = self.play(path, duration_ms, now_ms);
                    match act {
                        PlayAction::Replace { gain } => CommandOutcome::StartSink { gain },
                        PlayAction::FadeIn => CommandOutcome::StartIncoming,
                    }
                },
                None => CommandOutcome::Quiet,
            },
            CrossfadeCommand::PlayWithCrossfade(path, _window_ms) => match opened_duration_ms {
                Some(duration_ms) => {
                    let act = self.play_with_crossfade(path, duration_ms, now_ms);
                    match act {
                        PlayAction::Replace { gain } => CommandOutcome::StartSink { gain },
                        PlayAction::FadeIn => CommandOutcome::StartIncoming,
                    }
                },
                None => CommandOutcome::Quiet,
            },
            CrossfadeCommand::Pause => {
                self.pause();
                CommandOutcome::Quiet
            },
            CrossfadeCommand::Resume => {
                self.resume();
                CommandOutcome::Quiet
            },
            CrossfadeCommand::Stop => {
                self.stop();
                CommandOutcome::Quiet
            },
            CrossfadeCommand::Seek(_) => CommandOutcome::Quiet,
            CrossfadeCommand::SetVolume(gain) => {
                let apply = self.set_volume(gain);
                match apply {
                    Some(gain) => CommandOutcome::ApplyGain { gain },
                    None => CommandOutcome::Quiet,
                }
            },
            CrossfadeCommand::SetCrossfadeDuration(window_ms) => {
                self.set_crossfade_duration(window_ms);
                CommandOutcome::Quiet
            },
            CrossfadeCommand::EnableCrossfade(enabled) => {
                self.enable_crossfade(enabled);
                CommandOutcome::Quiet
            },
        }
    }

    /// State after `Stop`: every source torn down, the timer cleared, the
    /// clock zeroed, the tracks forgotten.
    pub open spec fn spec_stop(self) -> CrossfadeAudioPlayer {
        CrossfadeAudioPlayer {
            info: CrossfadeTrackInfo {
                current_time_ms: 0,
                is_playing: false,
                crossfade_active: false,
                current_track: None,
                next_track: None,
                ..self.info
            },
            primary: None,
            incoming: None,
            fade_started_at_ms: None,
            ..self
        }
    }

    /// A fresh engine: idle, no sources, crossfade disabled, volume at half.
    pub fn new() -> (player: CrossfadeAudioPlayer)
        ensures
            player.wf(),
            !player.info.is_playing,
            player.info.current_time_ms == 0,
            player.info.duration_ms == 0,
            !player.info.crossfade_active,
            player.info.current_track is None,
            player.info.next_track is None,
            player.primary is None,
            player.incoming is None,
            player.master_volume == 5000,
    {
        CrossfadeAudioPlayer {
            info: CrossfadeTrackInfo {
                duration_ms: 0,
                current_time_ms: 0,
                is_playing: false,
                crossfade_active: false,
                crossfade_progress: 0,
                current_track: None,
                next_track: None,
            },
            config: Default::default(),
            master_volume: 5000,
            primary: None,
            incoming: None,
            fade_started_at_ms: None,
        }
    }

    /// Full-replace play: tear the old sources down, adopt `path` as the
    /// primary source with the probed `duration_ms`, and report the gain the
    /// new sink must start at (the master volume).
    pub fn play(&mut self, path: String, duration_ms: u64, now_ms: u64) -> (act: PlayAction)
        requires
            old(self).wf(),
        ensures
            final(self).wf(),
            *final(self) == old(self).spec_play(path, duration_ms, now_ms),
            act == (PlayAction::Replace { gain: old(self).master_volume }),
    {
        self.info.duration_ms = duration_ms;
        self.info.current_time_ms = 0;
        self.info.is_playing = true;
        self.info.crossfade_active = false;
        self.info.current_track = Some(path.clone());
        self.info.next_track = None;
        self.primary = Some(ActiveSource { file_path: path, duration_ms, started_at_ms: now_ms });
        self.incoming = None;
        self.fade_started_at_ms = None;
        PlayAction::Replace { gain: self.master_volume }
    }

    /// Play with a crossfade towards `path`. When crossfade is disabled or
    /// nothing is playing this behaves exactly like [`Self::play`]; otherwise
    /// the new source joins as `Incoming` at gain `0` and the fade timer
    /// starts at `now_ms`.
    pub fn play_with_crossfade(&mut self, path: String, duration_ms: u64, now_ms: u64)
        -> (act: PlayAction)
        requires
            old(self).wf(),
        ensures
            final(self).wf(),
            *final(self) == old(self).spec_play_with_crossfade(path, duration_ms, now_ms),
            old(self).config.enabled && old(self).primary is Some ==> act == PlayAction::FadeIn,
            !(old(self).config.enabled && old(self).primary is Some) ==> act == (
            PlayAction::Replace { gain: old(self).master_volume }),
    {
        if self.config.enabled && self.primary.is_some() {
            self.info.crossfade_active = true;
            self.info.crossfade_progress = 0;
            self.info.next_track = Some(path.clone());
            self.incoming = Some(
                ActiveSource { file_path: path, duration_ms, started_at_ms: now_ms },
            );
            self.fade_started_at_ms = Some(now_ms);
            PlayAction::FadeIn
        } else {
            self.play(path, duration_ms, now_ms)
        }
    }

    /// One mixing tick. While the fade window is open this publishes the new
    /// progress and returns the two gains to apply; once `now_ms` has passed
    /// the window it promotes the incoming source and reports the gain the
    /// survivor must be restored to.
    pub fn fade_tick(&mut self, now_ms: u64) -> (act: TickAction)
        requires
            old(self).wf(),
            old(self).fade_started_at_ms is Some ==> now_ms >= old(self).fade_started_at_ms->0,
        ensures
            final(self).wf(),
            *final(self) == old(self).spec_tick(now_ms),
            !old(self).fade_active() ==> act == TickAction::Idle,
            (old(self).fade_active() && now_ms - old(self).fade_started_at_ms->0
                < old(self).config.duration_ms) ==> {
                let progress = final(self).info.crossfade_progress;
                act == (TickAction::Mix {
                    fade_out_gain: (fade_out_spec(old(self).config.curve_type, progress)
                        * old(self).master_volume / (UNIT as int)) as u64,
                    fade_in_gain: (fade_in_spec(old(self).config.curve_type, progress)
                        * old(self).master_volume / (UNIT as int)) as u64,
                })
            },
            (old(self).fade_active() && now_ms - old(self).fade_started_at_ms->0
                >= old(self).config.duration_ms) ==> act == (TickAction::Promote {
                gain: old(self).master_volume,
            }),
    {
        if self.fade_started_at_ms.is_some() && self.incoming.is_some() && self.primary.is_some() {
            let started = self.fade_started_at_ms.unwrap();
            let fade_duration = self.config.duration_ms;
            let elapsed = now_ms - started;
            if elapsed < fade_duration {
                proof {
                    assert(elapsed * UNIT < fade_duration * (UNIT as int)) by (nonlinear_arith)
                        requires
                            elapsed < fade_duration,
                    ;
                    lemma_multiply_divide_lt(
                        (elapsed * UNIT) as int,
                        fade_duration as int,
                        UNIT as int,
                    );
                }
                let progress = elapsed * UNIT / fade_duration;
                self.info.crossfade_progress = progress;
                let gains = crossfade_gains(self.config.curve_type, progress, self.master_volume);
                TickAction::Mix { fade_out_gain: gains.0, fade_in_gain: gains.1 }
            } else {
                let taken = self.incoming.take();
                if let Some(inc) = taken {
                    self.info.crossfade_active = false;
                    self.info.crossfade_progress = UNIT;
                    self.info.current_track = self.info.next_track.take();
                    self.info.duration_ms = inc.duration_ms;
                    self.info.current_time_ms = 0;
                    self.fade_started_at_ms = None;
                    self.primary = Some(
                        ActiveSource {
                            file_path: inc.file_path,
                            duration_ms: inc.duration_ms,
                            started_at_ms: now_ms,
                        },
                    );
                    TickAction::Promote { gain: self.master_volume }
                } else {
                    TickAction::Idle
                }
            }
        } else {
            TickAction::Idle
        }
    }

    /// `Pause`: both sources pause; the snapshot stops reporting playback.
    pub fn pause(&mut self)
        requires
            old(self).wf(),
        ensures
            final(self).wf(),
            *final(self) == (CrossfadeAudioPlayer {
                info: CrossfadeTrackInfo { is_playing: false, ..old(self).info },
                ..*old(self)
            }),
    {
        self.info.is_playing = false;
    }

    /// `Resume`: both sources resume; the snapshot reports playback again.
    pub fn resume(&mut self)
        requires
            old(self).wf(),
        ensures
            final(self).wf(),
            *final(self) == (CrossfadeAudioPlayer {
                info: CrossfadeTrackInfo { is_playing: true, ..old(self).info },
                ..*old(self)
            }),
    {
        self.info.is_playing = true;
    }

    /// `Stop`: tear everything down and zero the clock, whatever the prior
    /// state was.
    pub fn stop(&mut self)
        requires
            old(self).wf(),
        ensures
            final(self).wf(),
            *final(self) == old(self).spec_stop(),
            !final(self).info.is_playing,
            final(self).info.current_time_ms == 0,
    {
        self.info.is_playing = false;
        self.info.current_time_ms = 0;
        self.info.crossfade_active = false;
        self.info.current_track = None;
        self.info.next_track = None;
        self.primary = None;
        self.incoming = None;
        self.fade_started_at_ms = None;
    }

    /// `SetVolume`: clamp and store the requested gain. The returned value is
    /// the gain to apply to the primary sink now — absent while a crossfade
    /// is running, when the new master volume must not override the mid-fade
    /// gains and takes effect only at promotion.
    pub fn set_volume(&mut self, gain: i64) -> (apply: Option<u64>)
        requires
            old(self).wf(),
        ensures
            final(self).wf(),
            final(self).master_volume == clamped_volume(gain as int),
            *final(self) == (CrossfadeAudioPlayer {
                master_volume: clamped_volume(gain as int),
                ..*old(self)
            }),
            apply == if old(self).primary is Some && !old(self).info.crossfade_active {
                Some(clamped_volume(gain as int))
            } else {
                Option::<u64>::None
            },
    {
        let clamped = clamp_volume(gain);
        self.master_volume = clamped;
        if self.primary.is_some() && !self.info.crossfade_active {
            Some(clamped)
        } else {
            None
        }
    }

    /// `SetCrossfadeDuration`: store the requested window, clamped into
    /// `[1, MAX_FADE_MS]` so the progress arithmetic stays exact.
    pub fn set_crossfade_duration(&mut self, duration_ms: u64)
        requires
            old(self).wf(),
        ensures
            final(self).wf(),
            final(self).config.duration_ms == if duration_ms == 0 {
                1u64
            } else if duration_ms > MAX_FADE_MS {
                MAX_FADE_MS
            } else {
                duration_ms
            },
            *final(self) == (CrossfadeAudioPlayer {
                config: CrossfadeConfig {
                    duration_ms: final(self).config.duration_ms,
                    ..old(self).config
                },
                ..*old(self)
            }),
    {
        let clamped = if duration_ms == 0 {
            1
        } else if duration_ms > MAX_FADE_MS {
            MAX_FADE_MS
        } else {
            duration_ms
        };
        self.config.duration_ms = clamped;
    }

    /// `EnableCrossfade`: record whether future play requests may fade.
    pub fn enable_crossfade(&mut self, enabled: bool)
        requires
            old(self).wf(),
        ensures
            final(self).wf(),
            *final(self) == (CrossfadeAudioPlayer {
                config: CrossfadeConfig { enabled, ..old(self).config },
                ..*old(self)
            }),
    {
        self.config.enabled = enabled;
    }

    /// Snapshot of the read-model.
    pub fn get_track_info(&self) -> (info: CrossfadeTrackInfo)
        ensures
            info == self.info,
    {
        CrossfadeTrackInfo {
            duration_ms: self.info.duration_ms,
            current_time_ms: self.info.current_time_ms,
            is_playing: self.info.is_playing,
            crossfade_active: self.info.crossfade_active,
            crossfade_progress: self.info.crossfade_progress,
            current_track: self.info.current_track.clone(),
            next_track: self.info.next_track.clone(),
        }
    }

    /// Snapshot of the crossfade configuration.
    pub fn get_crossfade_config(&self) -> (config: CrossfadeConfig)
        ensures
            config == self.config,
    {
        self.config
    }
}

/// Crossfade completeness: begin a crossfade of window `D` towards `path`
/// while something is playing, advance the clock by at least `D`, and the
/// transition has fully resolved — the fade is inactive, `path` is the
/// current track with no successor, and the published progress is exactly
/// `UNIT`.
pub proof fn lemma_crossfade_completeness(
    player: CrossfadeAudioPlayer,
    path: String,
    duration_ms: u64,
    start_ms: u64,
    later_ms: u64,
)
    requires
        player.wf(),
        player.config.enabled,
        player.primary is Some,
        later_ms >= start_ms + player.config.duration_ms,
    ensures
        ({
            let faded = player.spec_play_with_crossfade(path, duration_ms, start_ms).spec_tick(
                later_ms,
            );
            &&& !faded.info.crossfade_active
            &&& faded.info.current_track == Some(path)
            &&& faded.info.next_track is None
            &&& faded.info.crossfade_progress == UNIT
            &&& faded.primary is Some
            &&& faded.primary->0.file_path == path
        }),
{
}

/// With crossfade disabled, a play-with-crossfade request is exactly a plain
/// play: the same state results, and no crossfade becomes active.
pub proof fn lemma_disabled_crossfade_is_plain_play(
    player: CrossfadeAudioPlayer,
    path: String,
    duration_ms: u64,
    now_ms: u64,
)
    requires
        player.wf(),
        !player.config.enabled,
    ensures
        player.spec_play_with_crossfade(path, duration_ms, now_ms) == player.spec_play(
            path,
            duration_ms,
            now_ms,
        ),
        !player.spec_play_with_crossfade(path, duration_ms, now_ms).info.crossfade_active,
{
}

/// Stop resets: whatever the engine was doing, after `Stop` it reports no
/// playback and a zeroed clock.
pub proof fn lemma_stop_resets(player: CrossfadeAudioPlayer)
    ensures
        !player.spec_stop().info.is_playing,
        player.spec_stop().info.current_time_ms == 0,
        !player.spec_stop().info.crossfade_active,
        player.spec_stop().info.current_track is None,
        player.spec_stop().info.next_track is None,
{
}

} // verus!
