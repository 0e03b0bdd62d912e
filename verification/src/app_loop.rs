//! Per-tick frame sequencing: camera-move resets, monotone random-seed
//! offsets, and pacing against a minimum frame time.

use vstd::prelude::*;

verus! {

/// What one display tick decides.
#[derive(Clone, Copy, Debug, PartialEq, Eq, Structural)]
pub enum TickAction {
    /// Too soon since the last displayed frame: issue no GPU work.
    Skip,
    /// Render one frame. `reset` asks the accumulation stage to forget its
    /// history first; `frame_index` is this frame's position in the
    /// current accumulation run; `rng_offset` seeds this frame's noise.
    Render { reset: bool, frame_index: u32, rng_offset: u32 },
}

/// Drives one frame per display tick: resets the frame counter on the
/// very tick a camera move is seen (also when that move arrived during a
/// skipped tick), advances it otherwise, hands out a strictly increasing
/// random-seed offset, and issues no work faster than the minimum frame
/// time.
pub struct FrameSequencer {
    /// Frames accumulated since the last camera move.
    pub frame_index: u32,
    /// Monotone seed counter; never reset, so successive frames sample
    /// independent noise even across camera moves.
    pub rng_counter: u32,
    /// A camera move was seen but not yet acted on (it arrived on a tick
    /// that was skipped).
    pub move_pending: bool,
    /// No GPU work is issued before this much time has elapsed since the
    /// previously displayed frame, in microseconds.
    pub min_frame_time_micros: u64,
}

impl FrameSequencer {
    pub fn new(min_frame_time_micros: u64) -> (r: FrameSequencer)
        ensures
            r.frame_index == 0,
            r.rng_counter == 0,
            r.move_pending == false,
            r.min_frame_time_micros == min_frame_time_micros,
    {
        FrameSequencer { frame_index: 0, rng_counter: 0, move_pending: false, min_frame_time_micros }
    }

    /// One display tick. Renders exactly when the elapsed time reaches the
    /// minimum frame time; a camera move takes effect on the very first
    /// rendered frame at or after it, resetting the accumulation run to
    /// index zero.
    pub fn tick(&mut self, camera_moved: bool, elapsed_micros: u64) -> (a: TickAction)
        requires
            old(self).rng_counter < u32::MAX,
            old(self).frame_index < u32::MAX,
        ensures
            final(self).min_frame_time_micros == old(self).min_frame_time_micros,
            elapsed_micros < old(self).min_frame_time_micros ==> {
                &&& a is Skip
                &&& final(self).frame_index == old(self).frame_index
                &&& final(self).rng_counter == old(self).rng_counter
                &&& final(self).move_pending == (old(self).move_pending || camera_moved)
            },
            elapsed_micros >= old(self).min_frame_time_micros ==> {
                let reset = old(self).move_pending || camera_moved;
                &&& a == (TickAction::Render {
                    reset: reset,
                    frame_index: if reset {
                        0u32
                    } else {
                        old(self).frame_index
                    },
                    rng_offset: old(self).rng_counter,
                })
                &&& final(self).frame_index == (if reset {
                    0int
                } else {
                    old(self).frame_index as int
                }) + 1
                &&& final(self).rng_counter == old(self).rng_counter + 1
                &&& final(self).move_pending == false
            },
    {
        if camera_moved {
            self.move_pending = true;
        }
        if elapsed_micros < self.min_frame_time_micros {
            return TickAction::Skip;
        }
        let reset = self.move_pending;
        let frame_index = if reset {
            0
        } else {
            self.frame_index
        };
        let rng_offset = self.rng_counter;
        self.frame_index = frame_index + 1;
        self.rng_counter = self.rng_counter + 1;
        self.move_pending = false;
        TickAction::Render { reset, frame_index, rng_offset }
    }
}

} // verus!
