use vstd::prelude::*;

use crate::buffer::SmartBuffer;
use crate::clock;
use crate::gen::SampleGen;
use crate::control::{ControlMessage, DirectionalParam, SmoothParam, UNIT};
use crate::pvoc::{PvocBlock, PVOCGen};
use crate::repitch::{RePitchGen, RepitchStep};
use crate::seq::SlicedOut;
use crate::slicer::SlicerGen;

verus! {

/// The closed set of sample generators a track can run. A tagged variant
/// keeps the realtime path free of indirection.
#[derive(Debug, Clone)]
pub enum Generator {
    /// Linear-interpolation repitch playback.
    RePitch(RePitchGen),
    /// Beat-sliced sequencer playback.
    Slicer(SlicerGen),
    /// Phase-vocoder time-stretch playback.
    Pvoc(PVOCGen),
}

/// The plan of one track block, by generator kind; `Silent` stands for a
/// stopped generator's all-equilibrium block.
#[derive(Debug, Clone)]
pub enum BlockPlan {
    /// A stopped generator: every frame is silence.
    Silent,
    /// Repitch plans, one per output frame.
    Repitch(Vec<RepitchStep>),
    /// Slicer plans, one per output frame.
    Sliced(Vec<SlicedOut>),
    /// A phase-vocoder block plan.
    Pvoc(PvocBlock),
}

/// One frame handed out of a stored block plan.
#[derive(Debug)]
pub enum BlockFrame<'a> {
    /// Silence: the stopped block, an index past the plan, or a plan that
    /// is drained block-wise rather than frame-wise.
    Silent,
    /// One repitch output frame.
    Repitch(&'a RepitchStep),
    /// One slicer output frame.
    Sliced(SlicedOut),
}

impl Generator {
    /// The shared state of whichever generator runs.
    pub open spec fn spec_gen(self) -> SampleGen {
        match self {
            Generator::RePitch(g) => g.sample_gen,
            Generator::Slicer(g) => g.sample_gen,
            Generator::Pvoc(g) => g.sample_gen,
        }
    }

    /// Both values run the same kind of generator.
    pub open spec fn same_kind(self, o: Generator) -> bool {
        match (self, o) {
            (Generator::RePitch(_), Generator::RePitch(_)) => true,
            (Generator::Slicer(_), Generator::Slicer(_)) => true,
            (Generator::Pvoc(_), Generator::Pvoc(_)) => true,
            _ => false,
        }
    }

    /// The kind-specific payload beside the shared state is untouched.
    pub open spec fn aux_unchanged(self, o: Generator) -> bool {
        match (self, o) {
            (Generator::RePitch(a), Generator::RePitch(b)) => a.interp_num == b.interp_num
                && a.rate_tempo == b.rate_tempo && a.rate_mbpm == b.rate_mbpm,
            (Generator::Slicer(a), Generator::Slicer(b)) => a.slice_seq == b.slice_seq,
            (Generator::Pvoc(a), Generator::Pvoc(b)) => a.sched == b.sched && a.rate_tempo
                == b.rate_tempo && a.rate_mbpm == b.rate_mbpm,
            _ => false,
        }
    }

    /// A load landed: same kind, the local copy observably equals the
    /// phrase, the rest of the shared state is untouched, and the slicer
    /// also rebuilt its sequencer around the phrase.
    pub open spec fn spec_loaded_rel(g0: Generator, g1: Generator, b: SmartBuffer) -> bool {
        &&& g0.same_kind(g1)
        &&& g1.spec_gen().smartbuf.obs_eq(b)
        &&& g1.spec_gen() == (crate::gen::SampleGen {
            smartbuf: g1.spec_gen().smartbuf,
            ..g0.spec_gen()
        })
        &&& match (g0, g1) {
            (Generator::Slicer(_), Generator::Slicer(c)) => c.slice_seq.spec_local_buffer()
                is Some && c.slice_seq.spec_local_buffer().unwrap().obs_eq(b),
            (Generator::Pvoc(a), Generator::Pvoc(c)) => c.sched == a.sched && c.rate_tempo
                == a.rate_tempo && c.rate_mbpm == a.rate_mbpm,
            (Generator::RePitch(a), Generator::RePitch(c)) => c.rate_tempo == a.rate_tempo
                && c.rate_mbpm == a.rate_mbpm,
            _ => false,
        }
    }

    /// Unmuting: the generator plays exactly when it holds audio or was
    /// already playing; everything else is untouched.
    pub open spec fn spec_played_rel(g0: Generator, g1: Generator) -> bool {
        &&& g0.aux_unchanged(g1)
        &&& g1.spec_gen() == (crate::gen::SampleGen {
            playing: g0.spec_gen().smartbuf.spec_frames().len() > 0 || g0.spec_gen().playing,
            ..g0.spec_gen()
        })
    }

    /// Muting, by kind: the repitch and vocoder readers rewind, the
    /// vocoder schedule resets, the slicer only falls silent.
    pub open spec fn spec_stopped_rel(g0: Generator, g1: Generator) -> bool {
        match (g0, g1) {
            (Generator::RePitch(a), Generator::RePitch(b)) => b.sample_gen
                == (crate::gen::SampleGen {
                playing: false,
                frame_index: 0,
                sync_cursor: 0,
                sync_next_frame_index: 0,
                ..a.sample_gen
            }) && b.interp_num == a.interp_num,
            (Generator::Slicer(a), Generator::Slicer(b)) => b.sample_gen
                == (crate::gen::SampleGen { playing: false, ..a.sample_gen }) && b.slice_seq
                == a.slice_seq,
            (Generator::Pvoc(a), Generator::Pvoc(b)) => b.sample_gen == (crate::gen::SampleGen {
                playing: false,
                frame_index: 0,
                sync_cursor: 0,
                sync_next_frame_index: 0,
                ..a.sample_gen
            }) && b.sched == (crate::pvoc::PvocSched {
                elapsed_hops: 1,
                interp_block: 0,
                ..a.sched
            }),
            _ => false,
        }
    }

    /// A transport sync landed, by kind: the repitch and vocoder adopt
    /// the tempo and start a click-free jump when the rate changed or the
    /// clock sits on a beat — the vocoder also resets its schedule — and
    /// the slicer's sequencer adopts the tick and tempo when it holds a
    /// buffer.
    pub open spec fn spec_synced_rel(g0: Generator, g1: Generator, tempo: u64, tick: u64) -> bool {
        match (g0, g1) {
            (Generator::RePitch(a), Generator::RePitch(b)) => {
                let mbpm = a.sample_gen.smartbuf.spec_tempo();
                let clock_frames = crate::clock::spec_tick_samples(tick as int, mbpm as int);
                let is_beat = clock_frames % crate::clock::spec_beat_samples(mbpm as int) == 0;
                let resync = tempo * a.rate_mbpm != a.rate_tempo * mbpm || is_beat;
                &&& b.interp_num == a.interp_num
                &&& (resync ==> b.sample_gen == (crate::gen::SampleGen {
                    global_tempo: tempo,
                    sync_cursor: 0,
                    sync_next_frame_index: clock_frames as u64,
                    ..a.sample_gen
                }) && b.rate_tempo == tempo && b.rate_mbpm == mbpm)
                &&& (!resync ==> b.sample_gen == a.sample_gen && b.rate_tempo == a.rate_tempo
                    && b.rate_mbpm == a.rate_mbpm)
            },
            (Generator::Pvoc(a), Generator::Pvoc(b)) => {
                let mbpm = a.sample_gen.smartbuf.spec_tempo();
                let clock_frames = crate::clock::spec_tick_samples(tick as int, mbpm as int);
                let is_beat = clock_frames % crate::clock::spec_beat_samples(mbpm as int) == 0;
                let resync = tempo * a.rate_mbpm != a.rate_tempo * mbpm || is_beat;
                &&& (resync ==> b.sample_gen == (crate::gen::SampleGen {
                    global_tempo: tempo,
                    sync_cursor: 0,
                    sync_next_frame_index: clock_frames as u64,
                    ..a.sample_gen
                }) && b.sched == (crate::pvoc::PvocSched {
                    elapsed_hops: 1,
                    interp_block: 0,
                    ..a.sched
                }) && b.rate_tempo == tempo && b.rate_mbpm == mbpm)
                &&& (!resync ==> b.sample_gen == a.sample_gen && b.sched == a.sched
                    && b.rate_tempo == a.rate_tempo && b.rate_mbpm == a.rate_mbpm)
            },
            (Generator::Slicer(a), Generator::Slicer(b)) => {
                &&& b.sample_gen == a.sample_gen
                &&& (a.slice_seq.spec_local_buffer() is None ==> b.slice_seq == a.slice_seq)
                &&& (a.slice_seq.spec_local_buffer() is Some ==> ({
                    &&& b.slice_seq.spec_ticks() == tick
                    &&& b.slice_seq.spec_global_tempo() == tempo
                    &&& b.slice_seq.spec_frames_since_sync() == 0
                }))
            },
            _ => false,
        }
    }

    /// A control message landed: only a slicer transform changes anything
    /// — it is queued with the currently playing slice captured for a
    /// repeat — and every other generator or message is untouched.
    pub open spec fn spec_message_rel(g0: Generator, g1: Generator, message: ControlMessage) -> bool {
        match (g0, g1) {
            (Generator::Slicer(a), Generator::Slicer(b)) => {
                &&& b.sample_gen == a.sample_gen
                &&& match message {
                    ControlMessage::Slicer {
                        message: crate::control::SlicerMessage::Transform(t),
                        ..
                    } => {
                        let queued = match t {
                            crate::seq::TransformType::QuantRepeat { quant, .. } => crate::seq::TransformType::QuantRepeat {
                                quant,
                                slice_index: a.slice_seq.spec_curr_slice_idx(),
                            },
                            _ => t,
                        };
                        b.slice_seq.spec_next_transform() == Some(queued)
                    },
                    _ => b.slice_seq == a.slice_seq,
                }
            },
            _ => g1 == g0,
        }
    }

    /// A block was planned: the plan's kind matches the generator's, a
    /// stopped generator stays frozen with a silent plan, and a playing
    /// one carries its own exact block contract — the repitch trace, the
    /// slicer's per-frame emissions, the vocoder's reader trace and
    /// schedule fold.
    pub open spec fn spec_block_rel(g0: Generator, g1: Generator, plan: BlockPlan, block_len: usize) -> bool {
        &&& (plan is Silent) == !g0.spec_playing()
        &&& (!g0.spec_playing() ==> g1 == g0)
        &&& match (g0, g1) {
            (Generator::RePitch(a), Generator::RePitch(b)) => a.sample_gen.playing ==> ({
                &&& plan matches BlockPlan::Repitch(steps)
                &&& ({
                    let steps = plan->Repitch_0;
                    &&& steps@.len() == block_len
                    &&& b == a.spec_iter(block_len as nat)
                    &&& (forall|i: int|
                        0 <= i < block_len ==> ({
                            let step = a.spec_block_trace(block_len as nat)[i];
                            &&& (#[trigger] steps@[i]).pulls@ == step.0
                            &&& steps@[i].frac_num == step.1
                            &&& steps@[i].frac_den == step.2
                        }))
                })
            }),
            (Generator::Slicer(a), Generator::Slicer(b)) => a.sample_gen.playing ==> ({
                &&& plan matches BlockPlan::Sliced(outs)
                &&& ({
                    let outs = plan->Sliced_0;
                    &&& outs@.len() == block_len
                    &&& b.sample_gen == a.sample_gen
                    &&& b.slice_seq.spec_local_buffer() == a.slice_seq.spec_local_buffer()
                    &&& (forall|i: int|
                        0 <= i < block_len ==> ((#[trigger] outs@[i]).new is Some) == (
                        a.slice_seq.spec_local_buffer() is Some))
                    &&& (exists|states: Seq<crate::seq::SliceSeq>|
                        {
                            &&& #[trigger] crate::seq::SliceSeq::spec_seq_chain(states, outs@)
                            &&& states[0] == a.slice_seq
                            &&& states.last() == b.slice_seq
                        })
                })
            }),
            (Generator::Pvoc(a), Generator::Pvoc(b)) => a.sample_gen.playing ==> ({
                &&& plan matches BlockPlan::Pvoc(blk)
                &&& ({
                    let blk = plan->Pvoc_0;
                    let n = blk.emitted_per_hop@.len();
                    let tempo = a.sample_gen.global_tempo;
                    let mbpm = a.sample_gen.smartbuf.spec_tempo();
                    let end_sched = crate::pvoc::spec_sched_iter(a.sched, n as nat, tempo, mbpm);
                    &&& blk.pulls@ == crate::pvoc::spec_pvoc_pulls(a.sample_gen, n as nat)
                    &&& b.sample_gen == crate::pvoc::spec_gen_hop_iter(a.sample_gen, n as nat)
                    &&& (forall|i: int|
                        0 <= i < n ==> #[trigger] blk.emitted_per_hop@[i]
                            == crate::pvoc::spec_sched_iter(a.sched, i as nat, tempo, mbpm).spec_hop(
                            tempo,
                            mbpm,
                        ).1)
                    &&& (end_sched.pending_out >= block_len || n == crate::pvoc::spec_hop_budget(
                        block_len,
                        tempo,
                        mbpm,
                    ))
                    &&& b.sched == (crate::pvoc::PvocSched {
                        pending_out: if end_sched.pending_out >= block_len {
                            (end_sched.pending_out - block_len) as u64
                        } else {
                            0
                        },
                        ..end_sched
                    })
                    &&& b.rate_tempo == a.rate_tempo
                    &&& b.rate_mbpm == a.rate_mbpm
                })
            }),
            _ => false,
        }
    }
}

impl Generator {
    /// Bounds of whichever generator runs.
    pub open spec fn wf(self) -> bool {
        match self {
            Generator::RePitch(g) => g.wf(),
            Generator::Slicer(g) => g.wf(),
            Generator::Pvoc(g) => g.wf(),
        }
    }

    /// Whether the generator currently produces sound.
    pub open spec fn spec_playing(self) -> bool {
        match self {
            Generator::RePitch(g) => g.sample_gen.playing,
            Generator::Slicer(g) => g.sample_gen.playing,
            Generator::Pvoc(g) => g.sample_gen.playing,
        }
    }

    /// Copies a phrase into the generator's local buffer.
    pub fn load_buffer(&mut self, smartbuf: &SmartBuffer)
        requires
            old(self).wf(),
            smartbuf.loaded_wf(),
        ensures
            final(self).wf(),
            Generator::spec_loaded_rel(*old(self), *final(self), *smartbuf),
    {
        match self {
            Generator::RePitch(g) => g.load_buffer(smartbuf),
            Generator::Slicer(g) => g.load_buffer(smartbuf),
            Generator::Pvoc(g) => g.load_buffer(smartbuf),
        }
    }

    /// Synchronizes the generator to the transport.
    pub fn sync(&mut self, global_tempo: u64, tick: u64)
        requires
            old(self).wf(),
            1 <= global_tempo <= clock::GLOBAL_TEMPO_MAX,
            tick <= clock::TICKS_MAX,
        ensures
            final(self).wf(),
            Generator::spec_synced_rel(*old(self), *final(self), global_tempo, tick),
    {
        match self {
            Generator::RePitch(g) => g.sync(global_tempo, tick),
            Generator::Slicer(g) => g.sync(global_tempo, tick),
            Generator::Pvoc(g) => g.sync(global_tempo, tick),
        }
    }

    /// Unmutes the generator once audio is loaded.
    pub fn play(&mut self)
        requires
            old(self).wf(),
        ensures
            final(self).wf(),
            Generator::spec_played_rel(*old(self), *final(self)),
    {
        match self {
            Generator::RePitch(g) => g.play(),
            Generator::Slicer(g) => g.play(),
            Generator::Pvoc(g) => g.play(),
        }
    }

    /// Mutes the generator.
    pub fn stop(&mut self)
        requires
            old(self).wf(),
        ensures
            final(self).wf(),
            !final(self).spec_playing(),
            Generator::spec_stopped_rel(*old(self), *final(self)),
    {
        match self {
            Generator::RePitch(g) => g.stop(),
            Generator::Slicer(g) => g.stop(),
            Generator::Pvoc(g) => g.stop(),
        }
    }

    /// Records the loop divider to activate at the next beat.
    pub fn set_loop_div(&mut self, loop_div: u64)
        requires
            old(self).wf(),
        ensures
            final(self).wf(),
            old(self).aux_unchanged(*final(self)),
            final(self).spec_gen() == (crate::gen::SampleGen {
                next_loop_div: if loop_div >= 1 {
                    loop_div
                } else {
                    old(self).spec_gen().next_loop_div
                },
                ..old(self).spec_gen()
            }),
    {
        match self {
            Generator::RePitch(g) => g.set_loop_div(loop_div),
            Generator::Slicer(g) => g.set_loop_div(loop_div),
            Generator::Pvoc(g) => g.set_loop_div(loop_div),
        }
    }

    /// Hands a control message to the generator; only the slicer reads
    /// any.
    pub fn push_control_message(&mut self, message: ControlMessage)
        requires
            old(self).wf(),
        ensures
            final(self).wf(),
            Generator::spec_message_rel(*old(self), *final(self), message),
    {
        match self {
            Generator::Slicer(g) => g.push_control_message(message),
            Generator::RePitch(_) => {},
            Generator::Pvoc(_) => {},
        }
    }

    /// Plans the generator's next block.
    pub fn next_block(&mut self, block_len: usize) -> (r: BlockPlan)
        requires
            old(self).wf(),
            block_len <= 0x10000,
        ensures
            final(self).wf(),
            (r is Silent) == !old(self).spec_playing(),
            Generator::spec_block_rel(*old(self), *final(self), r, block_len),
    {
        match self {
            Generator::RePitch(g) => {
                match g.next_block(block_len) {
                    None => BlockPlan::Silent,
                    Some(steps) => BlockPlan::Repitch(steps),
                }
            },
            Generator::Slicer(g) => {
                match g.next_block(block_len) {
                    None => BlockPlan::Silent,
                    Some(frames) => BlockPlan::Sliced(frames),
                }
            },
            Generator::Pvoc(g) => {
                match g.next_block(block_len) {
                    None => BlockPlan::Silent,
                    Some(blk) => BlockPlan::Pvoc(blk),
                }
            },
        }
    }
}

/// One mixer track: a generator, its last planned block, the smoothed
/// volume and pan, the sample selector, and the bank it draws from.
#[derive(Debug, Clone)]
pub struct AudioTrack {
    /// The sample generator.
    pub generator: Generator,
    /// The last planned block, for frame-wise access while mixing.
    pub last_block: BlockPlan,
    /// Smoothed volume, in micro-units.
    pub volume: SmoothParam,
    /// Smoothed pan, in micro-units.
    pub pan: SmoothParam,
    /// Direction detector for the sample selector.
    pub sample_select: DirectionalParam,
    /// Bank the track is locked to.
    pub bank: usize,
    /// File name of the sample currently loaded.
    pub sample_name: String,
}

impl AudioTrack {
    /// Track bounds.
    pub open spec fn wf(self) -> bool {
        &&& self.generator.wf()
        &&& self.volume.wf()
        &&& self.pan.wf()
    }

    /// A fresh track around a generator, at unit volume and center pan.
    pub fn new(generator: Generator, bank: usize) -> (r: AudioTrack)
        requires
            generator.wf(),
        ensures
            r.wf(),
            r.bank == bank,
            r.volume == (SmoothParam { prev_val: 0, next_val: UNIT, t: 0 }),
            r.pan == (SmoothParam { prev_val: 0, next_val: 0, t: 0 }),
            r.sample_select == (DirectionalParam { prev_val: 0, next_val: 0 }),
            r.last_block is Silent,
            r.generator == generator,
            r.sample_name@.len() == 0,
    {
        AudioTrack {
            generator,
            last_block: BlockPlan::Silent,
            volume: SmoothParam::new(0, UNIT),
            pan: SmoothParam::new(0, 0),
            sample_select: DirectionalParam::new(0, 0),
            bank,
            sample_name: String::new(),
        }
    }

    /// Loads a phrase into the generator and remembers its name.
    pub fn load_buffer(&mut self, buffer: &SmartBuffer)
        requires
            old(self).wf(),
            buffer.loaded_wf(),
        ensures
            final(self).wf(),
            final(self).sample_name@ == buffer.spec_file_name(),
            Generator::spec_loaded_rel(old(self).generator, final(self).generator, *buffer),
            final(self).volume == old(self).volume,
            final(self).pan == old(self).pan,
            final(self).sample_select == old(self).sample_select,
            final(self).bank == old(self).bank,
            final(self).last_block == old(self).last_block,
    {
        self.sample_name = buffer.file_name().clone();
        self.generator.load_buffer(buffer);
    }

    /// Plans the next block and keeps it for frame-wise access.
    pub fn fill_next_block(&mut self, size: usize)
        requires
            old(self).wf(),
            size <= 0x10000,
        ensures
            final(self).wf(),
            final(self).last_block is Silent <==> !old(self).generator.spec_playing(),
            Generator::spec_block_rel(
                old(self).generator,
                final(self).generator,
                final(self).last_block,
                size,
            ),
            final(self).volume == old(self).volume,
            final(self).pan == old(self).pan,
            final(self).sample_select == old(self).sample_select,
            final(self).bank == old(self).bank,
            final(self).sample_name == old(self).sample_name,
    {
        let plan = self.generator.next_block(size);
        self.last_block = plan;
    }

    /// Frame `index` of the last planned block; silence past the plan's
    /// end, for a stopped block, and for block-wise plans.
    pub fn get_frame(&self, index: usize) -> (r: BlockFrame)
        ensures
            match self.last_block {
                BlockPlan::Silent => r is Silent,
                BlockPlan::Repitch(steps) => {
                    if index < steps@.len() {
                        r matches BlockFrame::Repitch(s) && *s == steps@[index as int]
                    } else {
                        r is Silent
                    }
                },
                BlockPlan::Sliced(frames) => {
                    if index < frames@.len() {
                        r == BlockFrame::Sliced(frames@[index as int])
                    } else {
                        r is Silent
                    }
                },
                BlockPlan::Pvoc(_) => r is Silent,
            },
    {
        match &self.last_block {
            BlockPlan::Silent => BlockFrame::Silent,
            BlockPlan::Repitch(steps) => {
                if index < steps.len() {
                    BlockFrame::Repitch(&steps[index])
                } else {
                    BlockFrame::Silent
                }
            },
            BlockPlan::Sliced(frames) => {
                if index < frames.len() {
                    BlockFrame::Sliced(frames[index])
                } else {
                    BlockFrame::Silent
                }
            },
            BlockPlan::Pvoc(_) => BlockFrame::Silent,
        }
    }
}

} // verus!
