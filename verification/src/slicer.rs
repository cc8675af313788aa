use vstd::prelude::*;

use crate::buffer::SmartBuffer;
use crate::clock;
use crate::control::{ControlMessage, SlicerMessage};
use crate::gen::SampleGen;
use crate::positions::PositionsMode;
use crate::seq::{SliceSeq, SlicedOut, TransformType};

verus! {

/// The beat-slicer generator: a slice sequencer over the shared generator
/// state. Playback follows the clock slice by slice; transforms reorder
/// the playing slices between beats.
#[derive(Debug, Clone)]
pub struct SlicerGen {
    /// Shared generator state; holds the reference copy of the phrase.
    pub sample_gen: SampleGen,
    /// The slice sequencer with its own local copy.
    pub slice_seq: SliceSeq,
}

impl SlicerGen {
    /// Generator bounds.
    pub open spec fn wf(self) -> bool {
        &&& self.sample_gen.wf()
        &&& self.slice_seq.wf()
    }

    /// A fresh, silent slicer cutting by detected onsets.
    pub fn new() -> (r: SlicerGen)
        ensures
            r.wf(),
            !r.sample_gen.playing,
            r.slice_seq.spec_local_buffer() is None,
            r.slice_seq.spec_positions_mode() == PositionsMode::OnsetMode,
            r.sample_gen.smartbuf.spec_frames().len() == 0,
            r.sample_gen.global_tempo == 120,
    {
        SlicerGen {
            sample_gen: SampleGen::new(),
            slice_seq: SliceSeq::new(PositionsMode::OnsetMode),
        }
    }

    /// Emits one frame through the slice sequencer.
    pub fn slicer_next_frame(&mut self) -> (r: SlicedOut)
        requires
            old(self).wf(),
        ensures
            final(self).wf(),
            final(self).sample_gen == old(self).sample_gen,
            final(self).slice_seq.spec_local_buffer() == old(self).slice_seq.spec_local_buffer(),
            (r.new is Some) == (old(self).slice_seq.spec_local_buffer() is Some),
            SliceSeq::spec_step_rel(old(self).slice_seq, final(self).slice_seq, r),
    {
        let r = self.slice_seq.next_frame();
        r
    }

    /// Plans one audio block: nothing while stopped — the block is
    /// silence — otherwise one sequenced frame per output frame.
    pub fn next_block(&mut self, block_len: usize) -> (r: Option<Vec<SlicedOut>>)
        requires
            old(self).wf(),
        ensures
            final(self).wf(),
            (r is Some) == old(self).sample_gen.playing,
            final(self).sample_gen == old(self).sample_gen,
            !old(self).sample_gen.playing ==> *final(self) == *old(self),
            final(self).slice_seq.spec_local_buffer() == old(self).slice_seq.spec_local_buffer(),
            r is Some ==> ({
                let blk = r.unwrap();
                &&& blk@.len() == block_len
                &&& (forall|i: int|
                    0 <= i < block_len ==> ((#[trigger] blk@[i]).new is Some) == (old(self).slice_seq.spec_local_buffer() is Some))
                &&& (exists|states: Seq<SliceSeq>|
                    {
                        &&& #[trigger] SliceSeq::spec_seq_chain(states, blk@)
                        &&& states[0] == old(self).slice_seq
                        &&& states.last() == final(self).slice_seq
                    })
            }),
    {
        if !self.sample_gen.playing {
            return None;
        }
        let mut out: Vec<SlicedOut> = Vec::new();
        let ghost mut states: Seq<SliceSeq> = seq![self.slice_seq];
        let mut i: usize = 0;
        while i < block_len
            invariant
                self.wf(),
                self.sample_gen == old(self).sample_gen,
                self.slice_seq.spec_local_buffer() == old(self).slice_seq.spec_local_buffer(),
                i <= block_len,
                out@.len() == i,
                states.len() == i + 1,
                states[0] == old(self).slice_seq,
                states.last() == self.slice_seq,
                forall|j: int|
                    0 <= j < i ==> SliceSeq::spec_step_rel(
                        #[trigger] states[j],
                        states[j + 1],
                        out@[j],
                    ),
                forall|j: int|
                    0 <= j < i ==> ((#[trigger] out@[j]).new is Some) == (old(self).slice_seq.spec_local_buffer() is Some),
            decreases block_len - i,
        {
            let f = self.slicer_next_frame();
            out.push(f);
            proof {
                states = states.push(self.slice_seq);
            }
            i = i + 1;
        }
        proof {
            assert(SliceSeq::spec_seq_chain(states, out@));
        }
        Some(out)
    }

    /// Copies a new phrase into both the sequencer's local slot and the
    /// reference copy of the shared state.
    pub fn load_buffer(&mut self, smartbuf: &SmartBuffer)
        requires
            old(self).wf(),
            smartbuf.loaded_wf(),
        ensures
            final(self).wf(),
            final(self).slice_seq.spec_local_buffer() is Some,
            final(self).slice_seq.spec_local_buffer().unwrap().obs_eq(*smartbuf),
            final(self).sample_gen.smartbuf.obs_eq(*smartbuf),
            final(self).sample_gen == (SampleGen {
                smartbuf: final(self).sample_gen.smartbuf,
                ..old(self).sample_gen
            }),
    {
        self.slice_seq.load_buffer(smartbuf);
        self.sample_gen.smartbuf.copy_from(smartbuf);
    }

    /// Synchronizes the sequencer to the transport; without a loaded
    /// buffer the sync is ignored.
    pub fn sync(&mut self, global_tempo: u64, tick: u64)
        requires
            old(self).wf(),
            1 <= global_tempo <= clock::GLOBAL_TEMPO_MAX,
            tick <= clock::TICKS_MAX,
        ensures
            final(self).wf(),
            final(self).sample_gen == old(self).sample_gen,
            old(self).slice_seq.spec_local_buffer() is None ==> final(self).slice_seq == old(self).slice_seq,
            old(self).slice_seq.spec_local_buffer() is Some ==> ({
                &&& final(self).slice_seq.spec_ticks() == tick
                &&& final(self).slice_seq.spec_global_tempo() == global_tempo
                &&& final(self).slice_seq.spec_frames_since_sync() == 0
            }),
    {
        if self.slice_seq.has_buffer() {
            self.slice_seq.sync(global_tempo, tick);
        }
    }

    /// Unmutes the generator once the reference copy holds audio.
    pub fn play(&mut self)
        ensures
            final(self).sample_gen == (SampleGen {
                playing: old(self).sample_gen.smartbuf.spec_frames().len() > 0 || old(self).sample_gen.playing,
                ..old(self).sample_gen
            }),
            final(self).slice_seq == old(self).slice_seq,
            old(self).wf() ==> final(self).wf(),
    {
        if self.sample_gen.smartbuf.frames_len() > 0 {
            self.sample_gen.playing = true;
        }
    }

    /// Mutes the generator.
    pub fn stop(&mut self)
        ensures
            final(self).sample_gen == (SampleGen { playing: false, ..old(self).sample_gen }),
            final(self).slice_seq == old(self).slice_seq,
            old(self).wf() ==> final(self).wf(),
    {
        self.sample_gen.playing = false;
    }

    /// Records the spare playback factor.
    pub fn set_playback_mult(&mut self, playback_mult: u64)
        ensures
            final(self).sample_gen == (SampleGen { playback_mult, ..old(self).sample_gen }),
            final(self).slice_seq == old(self).slice_seq,
            old(self).wf() ==> final(self).wf(),
    {
        self.sample_gen.playback_mult = playback_mult;
    }

    /// Records the loop divider to activate at the next beat; zero is
    /// ignored.
    pub fn set_loop_div(&mut self, loop_div: u64)
        ensures
            final(self).sample_gen == (SampleGen {
                next_loop_div: if loop_div >= 1 {
                    loop_div
                } else {
                    old(self).sample_gen.next_loop_div
                },
                ..old(self).sample_gen
            }),
            final(self).slice_seq == old(self).slice_seq,
            old(self).wf() ==> final(self).wf(),
    {
        if loop_div >= 1 {
            self.sample_gen.next_loop_div = loop_div;
        }
    }

    /// Accepts a control message: a slicer transform is queued for the
    /// next frame, a repeat capturing the slice playing at this very
    /// moment; every other message is ignored.
    pub fn push_control_message(&mut self, message: ControlMessage)
        requires
            old(self).wf(),
        ensures
            final(self).wf(),
            final(self).sample_gen == old(self).sample_gen,
            match message {
                ControlMessage::Slicer { message: SlicerMessage::Transform(t), .. } => {
                    let queued = match t {
                        TransformType::QuantRepeat { quant, .. } => TransformType::QuantRepeat {
                            quant,
                            slice_index: old(self).slice_seq.spec_curr_slice_idx(),
                        },
                        _ => t,
                    };
                    final(self).slice_seq.spec_next_transform() == Some(queued)
                },
                _ => final(self).slice_seq == old(self).slice_seq,
            },
    {
        match message {
            ControlMessage::Slicer { message: SlicerMessage::Transform(t), .. } => {
                match t {
                    TransformType::QuantRepeat { quant, .. } => {
                        let captured = self.slice_seq.current_slice_key();
                        self.slice_seq.push_transform(
                            Some(TransformType::QuantRepeat { quant, slice_index: captured }),
                        );
                    },
                    _ => {
                        self.slice_seq.push_transform(Some(t));
                    },
                }
            },
            _ => {},
        }
    }
}

} // verus!
