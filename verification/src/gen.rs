use vstd::prelude::*;

use crate::buffer::SmartBuffer;
use crate::clock;
use crate::frame::Frame;

verus! {

/// Frames of fade-out and of fade-in around a synchronization jump; the
/// two together make the click-free ramp.
pub const NOCLICK_FADE_LENGTH: u64 = 64;

/// Saturation point of the running frame index and of the sync cursor.
pub const FRAME_INDEX_SAT: u64 = 0x4_0000_0000_0000;

/// One frame handed out by the sync primitive: the raw source frame and
/// the sync cursor it was read at. While the cursor is at most
/// `NOCLICK_FADE_LENGTH` the shell fades the frame out; after that it
/// fades it back in, so a position jump never steps the amplitude
/// abruptly.
#[derive(Debug, Clone, Copy, PartialEq, Eq, Structural)]
pub struct SyncFrame {
    /// Raw source frame, silent when the read ran past the buffer.
    pub frame: Frame,
    /// Sync cursor at the time of the read.
    pub sync_t: u64,
}

/// State common to every sample generator: the local buffer, the global
/// tempo, the loop divider, and the click-free resync bookkeeping.
#[derive(Debug, Clone)]
pub struct SampleGen {
    /// Local copy of the playing phrase.
    pub smartbuf: SmartBuffer,
    /// Global tempo in whole beats per minute; the playback rate is this
    /// over the buffer's original tempo.
    pub global_tempo: u64,
    /// Spare playback factor kept for control messages.
    pub playback_mult: u64,
    /// Active loop divider: the loop plays `num_beats / loop_div` beats.
    pub loop_div: u64,
    /// Divider to activate at the next beat boundary.
    pub next_loop_div: u64,
    /// Loop start offset, in loop lengths.
    pub loop_offset: u64,
    /// Whether the generator produces sound or writes silence.
    pub playing: bool,
    /// Current read index into the buffer, wrapped by the loop length.
    pub frame_index: u64,
    /// Frames since the last position jump; drives the click-free ramp.
    pub sync_cursor: u64,
    /// Index to jump to once the fade-out has finished.
    pub sync_next_frame_index: u64,
}

impl SampleGen {
    /// Bounds every generator keeps: a workable tempo pair, positive loop
    /// dividers, and saturated counters.
    pub open spec fn wf(self) -> bool {
        &&& self.smartbuf.fields_wf()
        &&& 1 <= self.global_tempo <= clock::GLOBAL_TEMPO_MAX
        &&& 1 <= self.loop_div
        &&& 1 <= self.next_loop_div
        &&& self.frame_index <= FRAME_INDEX_SAT + NOCLICK_FADE_LENGTH
        &&& self.sync_next_frame_index <= FRAME_INDEX_SAT
        &&& self.sync_cursor <= FRAME_INDEX_SAT
    }

    /// A fresh, silent generator around an empty buffer.
    pub fn new() -> (r: SampleGen)
        ensures
            r.wf(),
            !r.playing,
            r.global_tempo == 120,
            r.loop_div == 1,
            r.next_loop_div == 1,
            r.frame_index == 0,
            r.sync_cursor == 0,
            r.sync_next_frame_index == 0,
            r.smartbuf.spec_frames().len() == 0,
    {
        SampleGen {
            smartbuf: SmartBuffer::new_empty(),
            global_tempo: 120,
            playback_mult: 0,
            loop_div: 1,
            next_loop_div: 1,
            loop_offset: 0,
            playing: false,
            frame_index: 0,
            sync_cursor: 0,
            sync_next_frame_index: 0,
        }
    }

    /// The loop's upper bound in samples: `num_beats / loop_div` beats —
    /// at least one beat — at the original tempo.
    pub open spec fn spec_loop_max_frame(self) -> int {
        let beats_divided = self.smartbuf.spec_num_beats() as int / self.loop_div as int;
        let beats = if beats_divided < 1 {
            1
        } else {
            beats_divided
        };
        beats * (clock::BEAT_SAMPLES_SCALED as int) / self.smartbuf.spec_tempo() as int
    }

    /// The loop's upper bound in samples, always at least one.
    pub fn loop_get_max_frame(&self) -> (r: u64)
        requires
            self.wf(),
        ensures
            r == self.spec_loop_max_frame(),
            1 <= r,
    {
        let beats_divided = self.smartbuf.num_beats() as u64 / self.loop_div;
        let beats = if beats_divided < 1 {
            1
        } else {
            beats_divided
        };
        proof {
            assert(self.smartbuf.spec_num_beats() as int / self.loop_div as int
                <= self.smartbuf.spec_num_beats()) by (nonlinear_arith)
                requires self.loop_div >= 1 && self.smartbuf.spec_num_beats() >= 0;
            assert(beats * (clock::BEAT_SAMPLES_SCALED as int) <= (crate::buffer::NUM_BEATS_MAX
                as int) * (clock::BEAT_SAMPLES_SCALED as int)) by (nonlinear_arith)
                requires 1 <= beats <= crate::buffer::NUM_BEATS_MAX;
            assert(beats * (clock::BEAT_SAMPLES_SCALED as int) / (self.smartbuf.spec_tempo() as int)
                >= 1) by (nonlinear_arith)
                requires beats >= 1 && 1 <= self.smartbuf.spec_tempo()
                    <= clock::BEAT_SAMPLES_SCALED;
        }
        let wide: u64 = beats * clock::BEAT_SAMPLES_SCALED;
        wide / self.smartbuf.original_tempo()
    }

    /// Whether the current frame index sits on a beat boundary of the
    /// original tempo.
    pub fn is_beat_frame(&self) -> (r: bool)
        requires
            self.wf(),
        ensures
            r == (self.frame_index as int % clock::spec_beat_samples(
                self.smartbuf.spec_tempo() as int,
            ) == 0),
    {
        clock::is_beat_frame(self.frame_index, self.smartbuf.original_tempo())
    }

    /// Starts a click-free jump: the ramp restarts and the target index
    /// is remembered until the fade-out has run.
    pub fn sync_set_frame_index(&mut self, new_index: u64)
        requires
            new_index <= FRAME_INDEX_SAT,
        ensures
            *final(self) == (SampleGen {
                sync_cursor: 0,
                sync_next_frame_index: new_index,
                ..*old(self)
            }),
    {
        self.sync_cursor = 0;
        self.sync_next_frame_index = new_index;
    }

    /// Rewinds the generator to the buffer head and clears the ramp.
    pub fn sync_reset(&mut self)
        ensures
            *final(self) == (SampleGen {
                frame_index: 0,
                sync_cursor: 0,
                sync_next_frame_index: 0,
                ..*old(self)
            }),
    {
        self.frame_index = 0;
        self.sync_cursor = 0;
        self.sync_next_frame_index = 0;
    }

    /// Reads the next frame without clicks: the frame at the current
    /// index wrapped by the loop length, tagged with the sync cursor for
    /// the shell's fade. When the cursor reaches the fade-out length the
    /// index finally jumps to the remembered target; otherwise it steps
    /// by one. Reads past the buffer yield silence.
    pub fn sync_get_next_frame(&mut self) -> (r: SyncFrame)
        requires
            old(self).wf(),
        ensures
            final(self).wf(),
            ({
                let max_frame = old(self).spec_loop_max_frame();
                let idx = old(self).frame_index as int % max_frame;
                &&& (idx < old(self).smartbuf.spec_frames().len() ==> r.frame == old(
                    self,
                ).smartbuf.spec_frames()[idx])
                &&& (idx >= old(self).smartbuf.spec_frames().len() ==> r.frame
                    == Frame::spec_equilibrium())
            }),
            r.sync_t == old(self).sync_cursor,
            final(self).frame_index == if old(self).sync_cursor == NOCLICK_FADE_LENGTH {
                old(self).sync_next_frame_index + NOCLICK_FADE_LENGTH
            } else if old(self).frame_index < FRAME_INDEX_SAT + NOCLICK_FADE_LENGTH {
                old(self).frame_index + 1
            } else {
                old(self).frame_index as int
            },
            final(self).sync_cursor == if old(self).sync_cursor < FRAME_INDEX_SAT {
                old(self).sync_cursor + 1
            } else {
                old(self).sync_cursor as int
            },
            final(self).smartbuf == old(self).smartbuf,
            final(self).global_tempo == old(self).global_tempo,
            final(self).playing == old(self).playing,
            final(self).loop_div == old(self).loop_div,
            final(self).next_loop_div == old(self).next_loop_div,
            final(self).sync_next_frame_index == old(self).sync_next_frame_index,
            *final(self) == old(self).spec_sync_step().0,
            r == old(self).spec_sync_step().1,
    {
        let max_frame = self.loop_get_max_frame();
        let idx = self.frame_index % max_frame;
        let frames = self.smartbuf.frames();
        let frame = if idx < frames.len() as u64 {
            frames[idx as usize]
        } else {
            Frame::equilibrium()
        };
        let out = SyncFrame { frame, sync_t: self.sync_cursor };

        if self.sync_cursor == NOCLICK_FADE_LENGTH {
            self.frame_index = self.sync_next_frame_index + NOCLICK_FADE_LENGTH;
        } else if self.frame_index < FRAME_INDEX_SAT + NOCLICK_FADE_LENGTH {
            self.frame_index = self.frame_index + 1;
        }
        if self.sync_cursor < FRAME_INDEX_SAT {
            self.sync_cursor = self.sync_cursor + 1;
        }
        out
    }

    /// The functional meaning of one click-free read: the advanced state
    /// and the tagged frame, exactly as `sync_get_next_frame` computes
    /// them.
    pub open spec fn spec_sync_step(self) -> (SampleGen, SyncFrame) {
        let max_frame = self.spec_loop_max_frame();
        let idx = self.frame_index as int % max_frame;
        let frame = if idx < self.smartbuf.spec_frames().len() {
            self.smartbuf.spec_frames()[idx]
        } else {
            Frame::spec_equilibrium()
        };
        let new_index = if self.sync_cursor == NOCLICK_FADE_LENGTH {
            self.sync_next_frame_index + NOCLICK_FADE_LENGTH
        } else if self.frame_index < FRAME_INDEX_SAT + NOCLICK_FADE_LENGTH {
            self.frame_index + 1
        } else {
            self.frame_index as int
        };
        let new_cursor = if self.sync_cursor < FRAME_INDEX_SAT {
            self.sync_cursor + 1
        } else {
            self.sync_cursor as int
        };
        (
            SampleGen {
                frame_index: new_index as u64,
                sync_cursor: new_cursor as u64,
                ..self
            },
            SyncFrame { frame, sync_t: self.sync_cursor },
        )
    }

    /// The generator state after `k` click-free reads.
    pub open spec fn spec_sync_iter(self, k: nat) -> SampleGen
        decreases k,
    {
        if k == 0 {
            self
        } else {
            self.spec_sync_iter((k - 1) as nat).spec_sync_step().0
        }
    }

    /// The tagged frames of `k` click-free reads, in order.
    pub open spec fn spec_sync_trace(self, k: nat) -> Seq<SyncFrame>
        decreases k,
    {
        if k == 0 {
            Seq::empty()
        } else {
            self.spec_sync_trace((k - 1) as nat).push(
                self.spec_sync_iter((k - 1) as nat).spec_sync_step().1,
            )
        }
    }

    /// A trace of `k` reads has `k` frames.
    pub proof fn lemma_sync_trace_len(self, k: nat)
        ensures
            self.spec_sync_trace(k).len() == k,
        decreases k,
    {
        if k > 0 {
            self.lemma_sync_trace_len((k - 1) as nat);
        }
    }

    /// The state after the pending loop divider activates: on a beat
    /// boundary the pending divider becomes the active one.
    pub open spec fn spec_activated(self) -> SampleGen {
        SampleGen {
            loop_div: if self.frame_index as int % clock::spec_beat_samples(
                self.smartbuf.spec_tempo() as int,
            ) == 0 {
                self.next_loop_div
            } else {
                self.loop_div
            },
            ..self
        }
    }

    /// Activates the pending loop divider when the index sits on a beat
    /// boundary.
    pub fn activate_loop_div(&mut self)
        requires
            old(self).wf(),
        ensures
            *final(self) == (SampleGen {
                loop_div: if old(self).frame_index as int % clock::spec_beat_samples(
                    old(self).smartbuf.spec_tempo() as int,
                ) == 0 {
                    old(self).next_loop_div
                } else {
                    old(self).loop_div
                },
                ..*old(self)
            }),
            *final(self) == old(self).spec_activated(),
            final(self).wf(),
    {
        if self.is_beat_frame() {
            if self.next_loop_div != self.loop_div {
                self.loop_div = self.next_loop_div;
            }
        }
        proof {
            if old(self).frame_index as int % clock::spec_beat_samples(
                old(self).smartbuf.spec_tempo() as int,
            ) != 0 {
                assert(*self =~= SampleGen { loop_div: old(self).loop_div, ..*old(self) });
            }
        }
    }
}

} // verus!
