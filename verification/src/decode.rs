//! Pure decisions of the decode pipeline: which track to decode, how the
//! frame counter advances, and what clock reading each packet publishes.
//! The actual demuxing and decoding happen outside; every packet outcome is
//! reported here as a [`DecodeEvent`] and this module decides whether the
//! loop continues and what the state machine records.

use vstd::prelude::*;

use crate::player::PlayerState;
use crate::player::SymphoniaPlayer;
use crate::player::MAX_POS_MS;

verus! {

/// Highest sample rate the progress tracker accepts, in Hz. Bounding it
/// keeps `position * sample_rate` inside `u64` during a seek rebase.
pub const MAX_SAMPLE_RATE: u32 = 1000000;

/// Cap on the running frame counter; `MAX_FRAMES * 1000` still fits `u64`,
/// so the derived clock `frames * 1000 / sample_rate` is always exact.
pub const MAX_FRAMES: u64 = 18000000000000000;

/// The running position of one decode loop: the selected track, the
/// stream's sample rate, and how many frames have been decoded so far.
#[derive(Debug, Clone, Copy)]
pub struct DecodeProgress {
    pub track_id: u32,
    /// Frames per second; always in `[1, MAX_SAMPLE_RATE]`.
    pub sample_rate: u32,
    /// Frames decoded since the start (or since the last seek rebase);
    /// saturates at `MAX_FRAMES`.
    pub frames_decoded: u64,
}

/// What the outside decode step reported for one loop iteration.
#[derive(Debug, Clone)]
pub enum DecodeEvent {
    /// A packet of the given track decoded into this many frames.
    Packet { track_id: u32, frames: u64 },
    /// A transient, per-packet decode error: the packet is skipped.
    DecodeFailed,
    /// The decoder failed in a way that ends this session.
    DecoderFatal,
    /// The stream's format changed mid-stream; no reinitialization is
    /// attempted.
    ResetRequired,
    /// The byte source reached its end.
    EndOfStream,
    /// The byte source failed.
    IoFailed,
    /// The demuxer failed.
    FormatFailed,
}

/// Whether the decode loop runs another iteration.
#[derive(Debug, Clone, Copy, PartialEq, Eq, Structural)]
pub enum LoopAction {
    Continue,
    Finish,
}

/// The frame counter after `frames` more frames: saturating at
/// `MAX_FRAMES`.
pub open spec fn advanced_frames(frames_decoded: u64, frames: u64) -> u64 {
    if frames_decoded + frames >= MAX_FRAMES {
        MAX_FRAMES
    } else {
        (frames_decoded + frames) as u64
    }
}

/// The clock reading derived from a frame count: `frames / sample_rate`
/// seconds, expressed in milliseconds.
pub open spec fn derived_time_ms(frames_decoded: u64, sample_rate: u32) -> int
    recommends
        sample_rate > 0,
{
    frames_decoded * 1000 / (sample_rate as int)
}

impl DecodeProgress {
    /// Internal consistency: sample rate positive and bounded, frame count
    /// below its cap.
    pub open spec fn wf(self) -> bool {
        &&& 1 <= self.sample_rate <= MAX_SAMPLE_RATE
        &&& self.frames_decoded <= MAX_FRAMES
    }

    /// Fresh progress for a selected track: no frames decoded yet. An
    /// out-of-range sample rate is clamped into `[1, MAX_SAMPLE_RATE]`.
    pub fn new(track_id: u32, sample_rate: u32) -> (progress: DecodeProgress)
        ensures
            progress.wf(),
            progress.track_id == track_id,
            progress.frames_decoded == 0,
            1 <= sample_rate <= MAX_SAMPLE_RATE ==> progress.sample_rate == sample_rate,
    {
        let clamped = if sample_rate == 0 {
            1
        } else if sample_rate > MAX_SAMPLE_RATE {
            MAX_SAMPLE_RATE
        } else {
            sample_rate
        };
        DecodeProgress { track_id, sample_rate: clamped, frames_decoded: 0 }
    }

    /// Rebase the frame counter to a seek target, so that clock readings
    /// continue from the target rather than from zero:
    /// `frames = position * sample_rate / 1000`.
    pub fn rebase(&mut self, position_ms: u64)
        requires
            old(self).wf(),
            position_ms <= MAX_POS_MS,
        ensures
            final(self).wf(),
            final(self).frames_decoded == position_ms * old(self).sample_rate / 1000,
            final(self).track_id == old(self).track_id,
            final(self).sample_rate == old(self).sample_rate,
    {
        proof {
            assert(position_ms * self.sample_rate <= MAX_POS_MS * (MAX_SAMPLE_RATE as int))
                by (nonlinear_arith)
                requires
                    position_ms <= MAX_POS_MS,
                    self.sample_rate <= MAX_SAMPLE_RATE,
            ;
        }
        self.frames_decoded = position_ms * (self.sample_rate as u64) / 1000;
    }

    /// Count `frames` more decoded frames, saturating at the cap.
    pub fn advance(&mut self, frames: u64)
        requires
            old(self).wf(),
        ensures
            final(self).wf(),
            final(self).frames_decoded == advanced_frames(old(self).frames_decoded, frames),
            final(self).track_id == old(self).track_id,
            final(self).sample_rate == old(self).sample_rate,
    {
        if frames >= MAX_FRAMES - self.frames_decoded {
            self.frames_decoded = MAX_FRAMES;
        } else {
            self.frames_decoded = self.frames_decoded + frames;
        }
    }

    /// The clock reading this progress stands for.
    pub fn current_time_ms(&self) -> (t: u64)
        requires
            self.wf(),
        ensures
            t == derived_time_ms(self.frames_decoded, self.sample_rate),
    {
        self.frames_decoded * 1000 / (self.sample_rate as u64)
    }
}

/// One decode-loop decision. A matching packet advances the frame counter
/// and publishes the derived clock; a foreign packet and a transient decode
/// error are skipped; end of stream and every stream-level failure finish
/// this source's loop without touching the transport state (the caller then
/// records the end of playback).
pub fn decode_step(
    player: &mut SymphoniaPlayer,
    progress: &mut DecodeProgress,
    event: &DecodeEvent,
) -> (act: LoopAction)
    requires
        old(player).wf(),
        old(progress).wf(),
    ensures
        final(player).wf(),
        final(progress).wf(),
        match *event {
            DecodeEvent::Packet { track_id, frames } => {
                if track_id == old(progress).track_id {
                    let advanced = advanced_frames(old(progress).frames_decoded, frames);
                    &&& *final(progress) == (DecodeProgress {
                        frames_decoded: advanced,
                        ..*old(progress)
                    })
                    &&& *final(player) == (SymphoniaPlayer {
                        state: PlayerState {
                            current_time_ms: derived_time_ms(
                                advanced,
                                old(progress).sample_rate,
                            ) as u64,
                            ..old(player).state
                        },
                        ..*old(player)
                    })
                    &&& act == LoopAction::Continue
                } else {
                    &&& *final(progress) == *old(progress)
                    &&& *final(player) == *old(player)
                    &&& act == LoopAction::Continue
                }
            },
            DecodeEvent::DecodeFailed => {
                &&& *final(progress) == *old(progress)
                &&& *final(player) == *old(player)
                &&& act == LoopAction::Continue
            },
            _ => {
                &&& *final(progress) == *old(progress)
                &&& *final(player) == *old(player)
                &&& act == LoopAction::Finish
            },
        },
{
    match event {
        DecodeEvent::Packet { track_id, frames } => {
            if *track_id == progress.track_id {
                progress.advance(*frames);
                let t = progress.current_time_ms();
                player.publish_time(t);
            }
            LoopAction::Continue
        },
        DecodeEvent::DecodeFailed => LoopAction::Continue,
        DecodeEvent::DecoderFatal => LoopAction::Finish,
        DecodeEvent::ResetRequired => LoopAction::Finish,
        DecodeEvent::EndOfStream => LoopAction::Finish,
        DecodeEvent::IoFailed => LoopAction::Finish,
        DecodeEvent::FormatFailed => LoopAction::Finish,
    }
}

/// Select the first track whose codec is usable. The null placeholder codec
/// has id `0`; a container with only null-codec tracks has no usable audio.
pub fn first_usable_track(codec_ids: &Vec<u32>) -> (selected: Option<usize>)
    ensures
        match selected {
            Some(i) => {
                &&& i < codec_ids.len()
                &&& codec_ids[i as int] != 0
                &&& forall|j: int| 0 <= j < i ==> codec_ids[j] == 0
            },
            None => forall|j: int| 0 <= j < codec_ids.len() ==> codec_ids[j] == 0,
        },
{
    let mut k: usize = 0;
    while k < codec_ids.len()
        invariant
            k <= codec_ids.len(),
            forall|j: int| 0 <= j < k ==> codec_ids[j] == 0,
        decreases codec_ids.len() - k,
    {
        if codec_ids[k] != 0 {
            return Some(k);
        }
        k = k + 1;
    }
    None
}

/// After a seek rebase the very next published clock reading is the seek
/// target again, up to the duration of a single frame: rebasing truncates
/// to whole frames, so the derived time never overshoots the target and
/// falls short of it by at most `1000 / sample_rate + 1` milliseconds.
pub proof fn lemma_rebase_time_is_continuous(position_ms: u64, sample_rate: u32)
    requires
        position_ms <= MAX_POS_MS,
        1 <= sample_rate <= MAX_SAMPLE_RATE,
    ensures
        ({
            let rebased = position_ms * sample_rate / 1000;
            let republished = derived_time_ms(rebased as u64, sample_rate);
            &&& republished <= position_ms
            &&& position_ms - republished <= 1000int / (sample_rate as int) + 1
        }),
{
    let r = sample_rate as int;
    let p = position_ms as int;
    let frames = p * r / 1000;
    let m1 = (p * r) % 1000;
    vstd::arithmetic::div_mod::lemma_fundamental_div_mod(p * r, 1000);
    vstd::arithmetic::div_mod::lemma_mod_bound(p * r, 1000);
    assert(0 <= p * r <= MAX_POS_MS * (MAX_SAMPLE_RATE as int)) by (nonlinear_arith)
        requires
            0 <= p <= MAX_POS_MS,
            0 <= r <= MAX_SAMPLE_RATE,
    ;
    vstd::arithmetic::div_mod::lemma_div_pos_is_pos(p * r, 1000);
    vstd::arithmetic::div_mod::lemma_div_is_ordered(
        p * r,
        MAX_POS_MS * (MAX_SAMPLE_RATE as int),
        1000,
    );
    assert(0 <= frames <= MAX_POS_MS * (MAX_SAMPLE_RATE as int) / 1000);
    assert((position_ms * sample_rate / 1000) as u64 == frames);
    let q = frames * 1000 / r;
    let m2 = (frames * 1000) % r;
    vstd::arithmetic::div_mod::lemma_fundamental_div_mod(frames * 1000, r);
    vstd::arithmetic::div_mod::lemma_mod_bound(frames * 1000, r);
    let tol = 1000int / r;
    let m3 = 1000int % r;
    vstd::arithmetic::div_mod::lemma_fundamental_div_mod(1000, r);
    vstd::arithmetic::div_mod::lemma_mod_bound(1000, r);
    assert(q <= p && p - q <= tol + 1) by (nonlinear_arith)
        requires
            p * r == 1000 * frames + m1,
            0 <= m1 < 1000,
            frames * 1000 == r * q + m2,
            0 <= m2 < r,
            1000 == r * tol + m3,
            0 <= m3 < r,
            1 <= r,
            0 <= p,
    ;
}

} // verus!
