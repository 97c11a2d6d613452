//! The single-track playback state machine: the lock-guarded transport state
//! that the command surface mutates and the decode loop publishes into.
//!
//! The surrounding process owns the actual decode thread and audio device;
//! it calls these methods for every decision: what a command changes, when
//! the loop must exit, and what time to publish.

use vstd::prelude::*;

use crate::fixed::clamp_volume;
use crate::fixed::clamped_volume;
use crate::fixed::MAX_VOLUME;
use crate::fixed::UNIT;

verus! {

/// Largest seek target the engine stores, in milliseconds (about 31 years).
/// Bounding it keeps the frame-rebase product `position * sample_rate`
/// inside `u64`.
pub const MAX_POS_MS: u64 = 1000000000000;

/// The transport state one engine instance owns. Callers only ever see
/// snapshots of it.
#[derive(Debug, Clone)]
pub struct PlayerState {
    pub is_playing: bool,
    pub is_paused: bool,
    pub current_time_ms: u64,
    pub duration_ms: u64,
    /// Stored volume, clamped to `[0, MAX_VOLUME]`.
    pub volume: u64,
    pub file_path: Option<String>,
}

/// The single-track player: transport state, the cooperative stop flag the
/// decode loop polls, and the pending seek request it applies.
pub struct SymphoniaPlayer {
    pub state: PlayerState,
    pub should_stop: bool,
    pub seek_position_ms: Option<u64>,
}

impl SymphoniaPlayer {
    /// Internal consistency: volume in range and any pending seek bounded.
    pub open spec fn wf(self) -> bool {
        &&& self.state.volume <= MAX_VOLUME
        &&& (self.seek_position_ms is Some ==> self.seek_position_ms->0 <= MAX_POS_MS)
    }

    /// State after `seek`: the request is recorded (bounded by
    /// `MAX_POS_MS`) and applied on the next decode-loop iteration.
    pub open spec fn spec_seek(self, position_ms: u64) -> SymphoniaPlayer {
        SymphoniaPlayer {
            seek_position_ms: Some(
                if position_ms > MAX_POS_MS {
                    MAX_POS_MS
                } else {
                    position_ms
                },
            ),
            ..self
        }
    }

    /// State after the decode loop takes the pending seek request and
    /// republishes the clock at the seek target.
    pub open spec fn spec_apply_pending_seek(self) -> SymphoniaPlayer {
        if self.seek_position_ms is Some {
            SymphoniaPlayer {
                state: PlayerState { current_time_ms: self.seek_position_ms->0, ..self.state },
                seek_position_ms: None,
                ..self
            }
        } else {
            self
        }
    }

    /// A fresh player: idle, zeroed clock, volume at `1.0`.
    pub fn new() -> (player: SymphoniaPlayer)
        ensures
            player.wf(),
            !player.state.is_playing,
            !player.state.is_paused,
            player.state.current_time_ms == 0,
            player.state.duration_ms == 0,
            player.state.volume == UNIT,
            player.state.file_path is None,
            !player.should_stop,
            player.seek_position_ms is None,
    {
        SymphoniaPlayer {
            state: PlayerState {
                is_playing: false,
                is_paused: false,
                current_time_ms: 0,
                duration_ms: 0,
                volume: UNIT,
                file_path: None,
            },
            should_stop: false,
            seek_position_ms: None,
        }
    }

    /// `Play`: adopt `path` with its probed `duration_ms`, zero the clock,
    /// clear any pending seek and the stop flag, and return the duration the
    /// caller is told up front.
    pub fn play(&mut self, path: String, duration_ms: u64) -> (d: u64)
        requires
            old(self).wf(),
        ensures
            final(self).wf(),
            d == duration_ms,
            final(self).state.file_path == Some(path),
            final(self).state.duration_ms == duration_ms,
            final(self).state.current_time_ms == 0,
            final(self).state.is_playing,
            !final(self).state.is_paused,
            final(self).state.volume == old(self).state.volume,
            !final(self).should_stop,
            final(self).seek_position_ms is None,
    {
        self.state.file_path = Some(path);
        self.state.duration_ms = duration_ms;
        self.state.current_time_ms = 0;
        self.state.is_playing = true;
        self.state.is_paused = false;
        self.seek_position_ms = None;
        self.should_stop = false;
        duration_ms
    }

    /// `Pause`: playback holds; the source is kept.
    pub fn pause(&mut self)
        requires
            old(self).wf(),
        ensures
            final(self).wf(),
            *final(self) == (SymphoniaPlayer {
                state: PlayerState { is_paused: true, ..old(self).state },
                ..*old(self)
            }),
    {
        self.state.is_paused = true;
    }

    /// `Resume`: playback continues from where it paused.
    pub fn resume(&mut self)
        requires
            old(self).wf(),
        ensures
            final(self).wf(),
            *final(self) == (SymphoniaPlayer {
                state: PlayerState { is_paused: false, ..old(self).state },
                ..*old(self)
            }),
    {
        self.state.is_paused = false;
    }

    /// `Stop`: raise the cooperative stop flag for the decode thread, zero
    /// the clock and forget the file, whatever the prior state was.
    pub fn stop(&mut self)
        requires
            old(self).wf(),
        ensures
            final(self).wf(),
            final(self).should_stop,
            !final(self).state.is_playing,
            !final(self).state.is_paused,
            final(self).state.current_time_ms == 0,
            final(self).state.file_path is None,
            final(self).state.duration_ms == old(self).state.duration_ms,
            final(self).state.volume == old(self).state.volume,
            final(self).seek_position_ms == old(self).seek_position_ms,
    {
        self.should_stop = true;
        self.state.is_playing = false;
        self.state.is_paused = false;
        self.state.current_time_ms = 0;
        self.state.file_path = None;
    }

    /// `Seek`: record the pending target; the decode loop applies it on its
    /// next iteration. Never fails; the request is bounded by `MAX_POS_MS`
    /// so the frame rebase cannot overflow.
    pub fn seek(&mut self, position_ms: u64)
        requires
            old(self).wf(),
        ensures
            final(self).wf(),
            *final(self) == old(self).spec_seek(position_ms),
            position_ms <= MAX_POS_MS ==> final(self).seek_position_ms == Some(position_ms),
    {
        let bounded = if position_ms > MAX_POS_MS {
            MAX_POS_MS
        } else {
            position_ms
        };
        self.seek_position_ms = Some(bounded);
    }

    /// `SetVolume`: the stored volume is exactly the requested gain clamped
    /// into `[0, MAX_VOLUME]`.
    pub fn set_volume(&mut self, gain: i64)
        requires
            old(self).wf(),
        ensures
            final(self).wf(),
            final(self).state.volume == clamped_volume(gain as int),
            *final(self) == (SymphoniaPlayer {
                state: PlayerState { volume: clamped_volume(gain as int), ..old(self).state },
                ..*old(self)
            }),
    {
        self.state.volume = clamp_volume(gain);
    }

    /// The decode loop takes the pending seek, if any: the published clock
    /// jumps to the target and the request is consumed. Returns the target
    /// so the caller can seek the format reader and rebase its frame count.
    pub fn apply_pending_seek(&mut self) -> (target: Option<u64>)
        requires
            old(self).wf(),
        ensures
            final(self).wf(),
            *final(self) == old(self).spec_apply_pending_seek(),
            target == old(self).seek_position_ms,
            final(self).seek_position_ms is None,
    {
        let target = self.seek_position_ms.take();
        if let Some(position_ms) = target {
            self.state.current_time_ms = position_ms;
        }
        target
    }

    /// The decode loop publishes a newly derived clock reading.
    pub fn publish_time(&mut self, current_time_ms: u64)
        requires
            old(self).wf(),
        ensures
            final(self).wf(),
            *final(self) == (SymphoniaPlayer {
                state: PlayerState { current_time_ms, ..old(self).state },
                ..*old(self)
            }),
    {
        self.state.current_time_ms = current_time_ms;
    }

    /// The decode loop has ended (end of stream, fatal error, or stop):
    /// playback is over, but the clock and file are left as they are.
    pub fn finish_playback(&mut self)
        requires
            old(self).wf(),
        ensures
            final(self).wf(),
            *final(self) == (SymphoniaPlayer {
                state: PlayerState { is_playing: false, is_paused: false, ..old(self).state },
                ..*old(self)
            }),
    {
        self.state.is_playing = false;
        self.state.is_paused = false;
    }

    /// Lock-guarded read: the published clock, in milliseconds.
    pub fn get_current_time(&self) -> (t: u64)
        ensures
            t == self.state.current_time_ms,
    {
        self.state.current_time_ms
    }

    /// Lock-guarded read: the probed duration, in milliseconds.
    pub fn get_duration(&self) -> (d: u64)
        ensures
            d == self.state.duration_ms,
    {
        self.state.duration_ms
    }

    /// Lock-guarded read: playing and not paused.
    pub fn is_playing(&self) -> (playing: bool)
        ensures
            playing == (self.state.is_playing && !self.state.is_paused),
    {
        self.state.is_playing && !self.state.is_paused
    }

    /// Whether the decode loop must exit at its next check.
    pub fn stop_requested(&self) -> (stop: bool)
        ensures
            stop == self.should_stop,
    {
        self.should_stop
    }
}

/// Seek lands exactly: request any position up to the duration while in
/// range, and the moment the decode loop applies the request the published
/// clock reads exactly that position. Time then advances from the seek
/// target, not from zero.
pub proof fn lemma_seek_lands_on_target(player: SymphoniaPlayer, position_ms: u64)
    requires
        player.wf(),
        position_ms <= player.state.duration_ms,
        position_ms <= MAX_POS_MS,
    ensures
        player.spec_seek(position_ms).spec_apply_pending_seek().state.current_time_ms
            == position_ms,
        player.spec_seek(position_ms).spec_apply_pending_seek().seek_position_ms is None,
{
}

} // verus!
