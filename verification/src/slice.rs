use vstd::prelude::*;

use crate::clock;
use crate::frame::Frame;

verus! {

/// Largest admitted slice start; matches the frame-count cap of the rate
/// arithmetic.
pub const SLICE_START_MAX: usize = 0x4000_0000;

/// Largest admitted slice length: a whole buffer plus one bar of repeat
/// quantization.
pub const SLICE_LEN_MAX: usize = 0x4000_0000 + 0x100_0000;

/// A read-only window over a buffer's frames. It stores no audio, only
/// the half-open range `[start, end)`, a cursor walking that range, and a
/// stable identifier used to notice when a playing slice was replaced by
/// a transform.
#[derive(Debug, Clone, Copy, PartialEq, Eq, Structural)]
pub struct Slice {
    /// Stable slice identifier.
    pub id: usize,
    /// First frame index of the window.
    pub start: usize,
    /// Frame index one past the window.
    pub end: usize,
    /// Frames already consumed, counted from `start`.
    pub cursor: usize,
    /// Reversed playback marker.
    pub reverse: bool,
}

/// Envelope parameters for one emitted slice frame: the engine hands
/// these to the numeric shell, which turns them into a cubic fade-in and
/// fade-out gain. `t` is the cursor position the frame was read at, the
/// two lengths are the rate-scaled fade windows, and `env_end` is the
/// rate-adjusted slice length the fade-out leans against.
#[derive(Debug, Clone, Copy, PartialEq, Eq, Structural)]
pub struct SliceEnv {
    /// Cursor position the envelope is evaluated at.
    pub t: u64,
    /// Fade-in window in frames, scaled by the playback rate.
    pub fade_in_len: u64,
    /// Fade-out window in frames, scaled by the playback rate.
    pub fade_out_len: u64,
    /// Rate-adjusted slice length the fade-out ends at.
    pub env_end: u64,
}

/// One planned output frame of the slicer path: the raw source frame (or
/// silence when the slice is consumed or reads past the buffer) plus the
/// envelope to apply to it.
#[derive(Debug, Clone, Copy, PartialEq, Eq, Structural)]
pub struct PlannedFrame {
    /// The raw frame to shape; silent when nothing can be read.
    pub frame: Frame,
    /// The envelope to apply.
    pub env: SliceEnv,
}

/// Baseline fade-in window of a slice, in frames at unit rate.
pub const SLICE_FADE_IN: u64 = 256;

/// Baseline fade-out window of a slice, in frames at unit rate.
pub const SLICE_FADE_OUT: u64 = 512;

/// Ceiling for a live cursor; emission saturates here, far past any
/// admitted slice end, so a consumed slice keeps yielding silence.
pub const SLICE_CURSOR_MAX: usize = 0x8000_0000 + 0x200_0000;

impl Slice {
    /// A slice stored in a map: a non-empty window, a rested cursor, and
    /// bounds that keep the cursor arithmetic inside the machine.
    pub open spec fn stored_wf(self) -> bool {
        &&& self.start < self.end
        &&& self.cursor == 0
        &&& self.start <= SLICE_START_MAX
        &&& self.end - self.start <= SLICE_LEN_MAX
    }

    /// The slice fits entirely inside a buffer of `len` frames.
    pub open spec fn fits(self, len: nat) -> bool {
        self.start < self.end <= len
    }

    /// Number of frames in the window.
    pub open spec fn spec_len(self) -> int {
        self.end - self.start
    }

    /// Number of frames in the window.
    pub fn len(&self) -> (r: usize)
        requires
            self.start <= self.end,
        ensures
            r == self.spec_len(),
    {
        self.end - self.start
    }

    /// The cursor has walked past the end of the window.
    pub fn is_consumed(&self) -> (r: bool)
        requires
            self.start <= self.end,
        ensures
            r == (self.cursor >= self.spec_len()),
    {
        self.cursor >= self.len()
    }

    /// Frames left to consume; zero once consumed.
    pub fn remaining(&self) -> (r: usize)
        requires
            self.start <= self.end,
        ensures
            self.cursor <= self.spec_len() ==> r == self.spec_len() - self.cursor,
            self.cursor > self.spec_len() ==> r == 0,
    {
        let l = self.len();
        if self.cursor >= l {
            0
        } else {
            l - self.cursor
        }
    }

    /// Produces the next frame of the slice as a plan: the source frame
    /// at `start + cursor` (silence when the slice is consumed or the
    /// index runs past the buffer) together with the envelope the shell
    /// applies — evaluated at the cursor before it advances — then
    /// advances the cursor. The envelope windows follow the playback rate
    /// `tempo / (mbpm/1000)` and the fade-out leans on the rate-adjusted
    /// length.
    pub fn next_frame(&mut self, frames: &Vec<Frame>, tempo: u64, mbpm: u64) -> (r: PlannedFrame)
        requires
            old(self).start <= old(self).end,
            old(self).start <= SLICE_START_MAX,
            old(self).spec_len() <= SLICE_LEN_MAX,
            old(self).cursor <= SLICE_CURSOR_MAX,
            1 <= tempo <= clock::GLOBAL_TEMPO_MAX,
            clock::MBPM_MIN <= mbpm <= clock::MBPM_MAX,
        ensures
            final(self).cursor == if old(self).cursor < SLICE_CURSOR_MAX {
                old(self).cursor + 1
            } else {
                old(self).cursor as int
            },
            final(self).id == old(self).id,
            final(self).start == old(self).start,
            final(self).end == old(self).end,
            final(self).reverse == old(self).reverse,
            ({
                let consumed = old(self).cursor >= old(self).spec_len();
                let idx = old(self).start + old(self).cursor;
                &&& (!consumed && idx < frames@.len() ==> r.frame == frames@[idx])
                &&& (consumed || idx >= frames@.len() ==> r.frame == Frame::spec_equilibrium())
            }),
            r.env.t == old(self).cursor,
            r.env.fade_in_len == clock::spec_scale_by_rate(
                SLICE_FADE_IN as int,
                tempo as int,
                mbpm as int,
            ),
            r.env.fade_out_len == clock::spec_scale_by_rate(
                SLICE_FADE_OUT as int,
                tempo as int,
                mbpm as int,
            ),
            r.env.env_end == if clock::spec_rate_ge_one(tempo as int, mbpm as int) {
                clock::spec_div_by_rate(old(self).spec_len(), tempo as int, mbpm as int)
            } else {
                old(self).spec_len()
            },
            *final(self) == spec_slice_step(*old(self), frames@, tempo as int, mbpm as int).0,
            r == spec_slice_step(*old(self), frames@, tempo as int, mbpm as int).1,
    {
        let mut next_frame = Frame::equilibrium();
        if !self.is_consumed() {
            let frame_index = self.cursor + self.start;
            if frame_index < frames.len() {
                next_frame = frames[frame_index];
            }
        }
        let env_t = self.cursor as u64;
        if self.cursor < SLICE_CURSOR_MAX {
            self.cursor = self.cursor + 1;
        }

        let slice_len = self.len() as u64;
        let env_end = if clock::rate_ge_one(tempo, mbpm) {
            clock::div_by_rate(slice_len, tempo, mbpm)
        } else {
            slice_len
        };
        let env = SliceEnv {
            t: env_t,
            fade_in_len: clock::scale_by_rate(SLICE_FADE_IN, tempo, mbpm),
            fade_out_len: clock::scale_by_rate(SLICE_FADE_OUT, tempo, mbpm),
            env_end,
        };
        PlannedFrame { frame: next_frame, env }
    }
}

/// The functional meaning of one emission step of a slice: the advanced
/// slice and the planned frame, exactly as `Slice::next_frame` computes
/// them.
pub open spec fn spec_slice_step(s: Slice, frames: Seq<Frame>, tempo: int, mbpm: int) -> (
    Slice,
    PlannedFrame,
) {
    let consumed = s.cursor >= s.spec_len();
    let idx = s.start + s.cursor;
    let frame = if !consumed && idx < frames.len() {
        frames[idx as int]
    } else {
        Frame::spec_equilibrium()
    };
    let new_cursor = if s.cursor < SLICE_CURSOR_MAX {
        s.cursor + 1
    } else {
        s.cursor as int
    };
    let env_end = if clock::spec_rate_ge_one(tempo, mbpm) {
        clock::spec_div_by_rate(s.spec_len(), tempo, mbpm)
    } else {
        s.spec_len()
    };
    (
        Slice { cursor: new_cursor as usize, ..s },
        PlannedFrame {
            frame,
            env: SliceEnv {
                t: s.cursor as u64,
                fade_in_len: clock::spec_scale_by_rate(SLICE_FADE_IN as int, tempo, mbpm) as u64,
                fade_out_len: clock::spec_scale_by_rate(SLICE_FADE_OUT as int, tempo, mbpm) as u64,
                env_end: env_end as u64,
            },
        },
    )
}

/// The slice after `k` emission steps.
pub open spec fn spec_slice_iter(s: Slice, frames: Seq<Frame>, tempo: int, mbpm: int, k: nat) -> Slice
    decreases k,
{
    if k == 0 {
        s
    } else {
        spec_slice_step(spec_slice_iter(s, frames, tempo, mbpm, (k - 1) as nat), frames, tempo, mbpm).0
    }
}

/// The planned frames of `k` emission steps, in order.
pub open spec fn spec_slice_trace(s: Slice, frames: Seq<Frame>, tempo: int, mbpm: int, k: nat) -> Seq<
    PlannedFrame,
>
    decreases k,
{
    if k == 0 {
        Seq::empty()
    } else {
        spec_slice_trace(s, frames, tempo, mbpm, (k - 1) as nat).push(
            spec_slice_step(spec_slice_iter(s, frames, tempo, mbpm, (k - 1) as nat), frames, tempo, mbpm).1,
        )
    }
}

impl Default for Slice {
    /// The empty slice at the buffer head.
    fn default() -> (r: Slice)
        ensures
            r == (Slice { id: 0, start: 0, end: 0, cursor: 0, reverse: false }),
    {
        Slice { id: 0, start: 0, end: 0, cursor: 0, reverse: false }
    }
}

} // verus!
