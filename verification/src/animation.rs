//! The animation clock.
//!
//! Frame progress through a sprite-sheet animation is the exact fraction
//! `animation_frame / animation_total_frames` in `[0, 1)`, kept as its
//! numerator over a fixed total. The clock advances one frame at a time on a
//! fixed wall-clock cadence — at most once per `ANIMATION_INTERVAL_MS`
//! milliseconds — independent of how often the host calls it, and wraps back
//! to 0 after the last frame.

use vstd::prelude::*;

verus! {

/// Least wall-clock time, in milliseconds, between two frame advances.
pub const ANIMATION_INTERVAL_MS: u64 = 150;

/// Progress of a sprite-sheet animation: the current frame as the numerator
/// of `animation_frame / animation_total_frames`, and the wall-clock instant
/// (in milliseconds) of the last advance. A clock with no recorded instant
/// never advances.
#[derive(Clone, Copy, Debug)]
pub struct AnimationFrames {
    pub animation_frame: u8,
    pub animation_total_frames: u8,
    pub last_animation: Option<u64>,
}

impl AnimationFrames {
    /// Well-formed: at least one frame, and progress strictly below 1.
    pub open spec fn wf(self) -> bool {
        0 < self.animation_total_frames && self.animation_frame < self.animation_total_frames
    }

    /// A clock at frame 0 whose last advance is the given instant.
    pub fn new(total_frames: u8, now_ms: u64) -> (frames: AnimationFrames)
        requires
            0 < total_frames,
        ensures
            frames == (AnimationFrames {
                animation_frame: 0,
                animation_total_frames: total_frames,
                last_animation: Some(now_ms),
            }),
            frames.wf(),
    {
        AnimationFrames {
            animation_frame: 0,
            animation_total_frames: total_frames,
            last_animation: Some(now_ms),
        }
    }

    /// Advances the clock: one frame forward, wrapping to 0 past the last
    /// frame, if at least `ANIMATION_INTERVAL_MS` milliseconds have passed
    /// since the last advance; otherwise leaves the clock untouched.
    pub fn advance(&mut self, now_ms: u64)
        requires
            old(self).wf(),
        ensures
            *final(self) == advanced(*old(self), now_ms),
            final(self).wf(),
    {
        if let Some(last) = self.last_animation {
            if now_ms >= last && now_ms - last >= ANIMATION_INTERVAL_MS {
                self.last_animation = Some(now_ms);
                self.animation_frame = if self.animation_frame + 1 >= self.animation_total_frames {
                    0
                } else {
                    self.animation_frame + 1
                };
            }
        }
    }
}

/// Whether a clock whose last advance was recorded advances at instant `now`:
/// at least the minimum interval has passed.
pub open spec fn should_advance(frames: AnimationFrames, now: u64) -> bool {
    match frames.last_animation {
        Some(last) => now >= last + ANIMATION_INTERVAL_MS,
        None => false,
    }
}

/// The clock after one call at instant `now`: the next frame (wrapped to 0
/// past the last) with `now` recorded, if the minimum interval has passed;
/// the same clock otherwise.
pub open spec fn advanced(frames: AnimationFrames, now: u64) -> AnimationFrames {
    if should_advance(frames, now) {
        AnimationFrames {
            animation_frame: if frames.animation_frame + 1 >= frames.animation_total_frames {
                0
            } else {
                (frames.animation_frame + 1) as u8
            },
            animation_total_frames: frames.animation_total_frames,
            last_animation: Some(now),
        }
    } else {
        frames
    }
}

/// The clock after a whole sequence of calls, one per instant in `times`, in
/// order.
pub open spec fn advanced_many(frames: AnimationFrames, times: Seq<u64>) -> AnimationFrames
    decreases times.len(),
{
    if times.len() == 0 {
        frames
    } else {
        advanced_many(advanced(frames, times[0]), times.subrange(1, times.len() as int))
    }
}

/// However often the clock is called, it never advances before the minimum
/// interval has passed: a whole sequence of calls, each earlier than
/// `ANIMATION_INTERVAL_MS` milliseconds past the last recorded advance,
/// leaves the clock exactly as it was.
pub proof fn lemma_no_advance_within_interval(frames: AnimationFrames, last: u64, times: Seq<u64>)
    requires
        frames.last_animation == Some(last),
        forall|i: int| 0 <= i < times.len() ==> times[i] < last + ANIMATION_INTERVAL_MS,
    ensures
        advanced_many(frames, times) == frames,
    decreases times.len(),
{
    if times.len() > 0 {
        assert(advanced(frames, times[0]) == frames);
        lemma_no_advance_within_interval(frames, last, times.subrange(1, times.len() as int));
    }
}

/// Frame progress cycles: a clock at frame 0, advanced four times with each
/// instant at least the minimum interval past the one before, steps through
/// frames 1, 2 and 3 and returns exactly to 0 on the fourth advance, its
/// total being four frames.
pub proof fn lemma_frame_cycle(frames: AnimationFrames, last: u64, t1: u64, t2: u64, t3: u64, t4: u64)
    requires
        frames.animation_frame == 0,
        frames.animation_total_frames == 4,
        frames.last_animation == Some(last),
        t1 >= last + ANIMATION_INTERVAL_MS,
        t2 >= t1 + ANIMATION_INTERVAL_MS,
        t3 >= t2 + ANIMATION_INTERVAL_MS,
        t4 >= t3 + ANIMATION_INTERVAL_MS,
    ensures
        advanced(frames, t1).animation_frame == 1,
        advanced(advanced(frames, t1), t2).animation_frame == 2,
        advanced(advanced(advanced(frames, t1), t2), t3).animation_frame == 3,
        advanced(advanced(advanced(advanced(frames, t1), t2), t3), t4).animation_frame == 0,
{
}

} // verus!
