use vstd::prelude::*;

use crate::clock;
use crate::config::TrackType;
use crate::control::{
    ControlHub, ControlMessage, Direction, SyncMessage, PARAM_MAX,
};
use crate::library::SampleLib;
use crate::pvoc::PVOCGen;
use crate::repitch::RePitchGen;
use crate::slicer::SlicerGen;
use crate::track::{AudioTrack, Generator};

verus! {

/// A freshly built track: locked to its configured bank, running the
/// configured kind of generator, at unit volume, center pan, a rested
/// selector and a silent plan, not yet playing; the bank's first sample
/// is loaded when it is a well-formed phrase, and otherwise the generator
/// still holds the empty buffer.
pub open spec fn spec_fresh_track(lib: SampleLib, tt: TrackType, t: AudioTrack) -> bool {
    let bank = match tt {
        TrackType::RePitchGen { bank } => bank,
        TrackType::SlicerGen { bank } => bank,
        TrackType::PVOCGen { bank } => bank,
    };
    let first = if bank < lib.buffers@.len() && lib.buffers@[bank as int]@.len() > 0 {
        lib.buffers@[bank as int]@[0]
    } else {
        lib.empty_buff
    };
    &&& t.bank == bank
    &&& t.volume == (crate::control::SmoothParam {
        prev_val: 0,
        next_val: crate::control::UNIT,
        t: 0,
    })
    &&& t.pan == (crate::control::SmoothParam { prev_val: 0, next_val: 0, t: 0 })
    &&& t.sample_select == (crate::control::DirectionalParam { prev_val: 0, next_val: 0 })
    &&& t.last_block is Silent
    &&& !t.generator.spec_playing()
    &&& match tt {
        TrackType::RePitchGen { .. } => t.generator is RePitch,
        TrackType::SlicerGen { .. } => t.generator is Slicer,
        TrackType::PVOCGen { .. } => t.generator is Pvoc,
    }
    &&& (first.loaded_wf() ==> t.sample_name@ == first.spec_file_name()
        && t.generator.spec_gen().smartbuf.obs_eq(first))
    &&& (!first.loaded_wf() ==> t.sample_name@.len() == 0
        && t.generator.spec_gen().smartbuf.spec_frames().len() == 0)
}

/// A run of message applications chained state to state, one per queued
/// message, in order.
pub open spec fn spec_apply_chain(states: Seq<AudioMixer>, msgs: Seq<ControlMessage>) -> bool {
    &&& states.len() == msgs.len() + 1
    &&& forall|i: int|
        0 <= i < msgs.len() ==> spec_apply_rel(#[trigger] states[i], states[i + 1], msgs[i])
}

/// Clamps a control value into the fixed-point parameter domain.
pub open spec fn spec_clamp_param(v: int) -> int {
    if v < -PARAM_MAX {
        -PARAM_MAX as int
    } else if v > PARAM_MAX {
        PARAM_MAX as int
    } else {
        v
    }
}

/// Clamps a transport tempo into the workable whole-BPM domain.
pub open spec fn spec_clamp_tempo(t: int) -> int {
    if t < 1 {
        1
    } else if t > clock::GLOBAL_TEMPO_MAX {
        clock::GLOBAL_TEMPO_MAX as int
    } else {
        t
    }
}

/// The mixer: it owns the sample library and the tracks, counts the
/// transport ticks, and drains the control hub at the start of every
/// block. Playback messages fan out to every track; targeted messages
/// dispatch by track number, and an out-of-range number is ignored.
pub struct AudioMixer {
    /// The sample library, immutable after startup.
    pub sample_lib: SampleLib,
    /// The tracks, in configuration order.
    pub tracks: Vec<AudioTrack>,
    /// Transport ticks counted since the last start or stop.
    pub clock_ticks: u64,
    /// The control fan-in queue the producers push into.
    pub hub: ControlHub,
}

/// The sibling buffer a selector move targets: the bank entry `order`
/// places from the track's current sample, wrapping around the bank; the
/// shared empty buffer when the bank or the name misses.
pub open spec fn spec_sibling_buffer(
    lib: SampleLib,
    t: AudioTrack,
    order: int,
) -> crate::buffer::SmartBuffer {
    match lib.spec_find_by_name(t.bank as int, t.sample_name@) {
        Some(i) => {
            let n = lib.buffers@[t.bank as int]@.len() as int;
            lib.buffers@[t.bank as int]@[(i + order) % n]
        },
        None => lib.empty_buff,
    }
}

/// A sibling load landed on the track: when the wrapping neighbor is a
/// loaded, well-formed phrase the track holds its name and the generator
/// its audio, with every control parameter untouched; otherwise the track
/// is untouched.
pub open spec fn spec_sibling_loaded(
    lib: SampleLib,
    t0: AudioTrack,
    t1: AudioTrack,
    order: int,
) -> bool {
    let b = spec_sibling_buffer(lib, t0, order);
    if b.loaded_wf() {
        &&& t1.sample_name@ == b.spec_file_name()
        &&& Generator::spec_loaded_rel(t0.generator, t1.generator, b)
        &&& t1.volume == t0.volume
        &&& t1.pan == t0.pan
        &&& t1.sample_select == t0.sample_select
        &&& t1.bank == t0.bank
        &&& t1.last_block == t0.last_block
    } else {
        t1 == t0
    }
}

/// Everything of the track except the generator is untouched.
pub open spec fn spec_track_same_params(t0: AudioTrack, t1: AudioTrack) -> bool {
    &&& t1.volume == t0.volume
    &&& t1.pan == t0.pan
    &&& t1.sample_select == t0.sample_select
    &&& t1.bank == t0.bank
    &&& t1.sample_name == t0.sample_name
    &&& t1.last_block == t0.last_block
}

/// The track's generator was unmuted.
pub open spec fn spec_track_played(t0: AudioTrack, t1: AudioTrack) -> bool {
    &&& Generator::spec_played_rel(t0.generator, t1.generator)
    &&& spec_track_same_params(t0, t1)
}

/// The track's generator was muted.
pub open spec fn spec_track_stopped(t0: AudioTrack, t1: AudioTrack) -> bool {
    &&& Generator::spec_stopped_rel(t0.generator, t1.generator)
    &&& spec_track_same_params(t0, t1)
}

/// The track's generator was synchronized.
pub open spec fn spec_track_synced(t0: AudioTrack, t1: AudioTrack, tempo: u64, tick: u64) -> bool {
    &&& Generator::spec_synced_rel(t0.generator, t1.generator, tempo, tick)
    &&& spec_track_same_params(t0, t1)
}

/// The full effect of one control message on the mixer: targeted
/// messages hit exactly their track — out-of-range numbers change
/// nothing — and transport messages fan out to every track.
pub open spec fn spec_apply_rel(m0: AudioMixer, m1: AudioMixer, command: ControlMessage) -> bool {
    &&& m1.tracks@.len() == m0.tracks@.len()
    &&& m1.sample_lib == m0.sample_lib
    &&& match command {
        ControlMessage::TrackVolume { val, track_num, .. } => {
            &&& (track_num < m0.tracks@.len() ==> m1.tracks@[track_num as int]
                == (AudioTrack {
                volume: crate::control::SmoothParam {
                    prev_val: m0.tracks@[track_num as int].volume.next_val,
                    next_val: spec_clamp_param(val as int) as i64,
                    t: 0,
                },
                ..m0.tracks@[track_num as int]
            }))
            &&& (forall|j: int|
                0 <= j < m0.tracks@.len() && j != track_num ==> #[trigger] m1.tracks@[j]
                    == m0.tracks@[j])
            &&& m1.clock_ticks == m0.clock_ticks
        },
        ControlMessage::TrackPan { val, track_num, .. } => {
            &&& (track_num < m0.tracks@.len() ==> m1.tracks@[track_num as int] == (AudioTrack {
                pan: crate::control::SmoothParam {
                    prev_val: m0.tracks@[track_num as int].pan.next_val,
                    next_val: spec_clamp_param(val as int) as i64,
                    t: 0,
                },
                ..m0.tracks@[track_num as int]
            }))
            &&& (forall|j: int|
                0 <= j < m0.tracks@.len() && j != track_num ==> #[trigger] m1.tracks@[j]
                    == m0.tracks@[j])
            &&& m1.clock_ticks == m0.clock_ticks
        },
        ControlMessage::TrackSampleSelect { val, track_num, .. } => {
            &&& (track_num < m0.tracks@.len() ==> ({
                let t0 = m0.tracks@[track_num as int];
                let tsel = AudioTrack {
                    sample_select: crate::control::DirectionalParam {
                        prev_val: t0.sample_select.next_val,
                        next_val: val,
                    },
                    ..t0
                };
                let t1 = m1.tracks@[track_num as int];
                &&& (val > t0.sample_select.next_val ==> spec_sibling_loaded(
                    m0.sample_lib,
                    tsel,
                    t1,
                    1,
                ))
                &&& (val < t0.sample_select.next_val ==> spec_sibling_loaded(
                    m0.sample_lib,
                    tsel,
                    t1,
                    -1,
                ))
                &&& (val == t0.sample_select.next_val ==> t1 == tsel)
            }))
            &&& (forall|j: int|
                0 <= j < m0.tracks@.len() && j != track_num ==> #[trigger] m1.tracks@[j]
                    == m0.tracks@[j])
            &&& m1.clock_ticks == m0.clock_ticks
        },
        ControlMessage::TrackNextSample { track_num, .. } => {
            &&& (track_num < m0.tracks@.len() ==> spec_sibling_loaded(
                m0.sample_lib,
                m0.tracks@[track_num as int],
                m1.tracks@[track_num as int],
                1,
            ))
            &&& (forall|j: int|
                0 <= j < m0.tracks@.len() && j != track_num ==> #[trigger] m1.tracks@[j]
                    == m0.tracks@[j])
            &&& m1.clock_ticks == m0.clock_ticks
        },
        ControlMessage::TrackPrevSample { track_num, .. } => {
            &&& (track_num < m0.tracks@.len() ==> spec_sibling_loaded(
                m0.sample_lib,
                m0.tracks@[track_num as int],
                m1.tracks@[track_num as int],
                -1,
            ))
            &&& (forall|j: int|
                0 <= j < m0.tracks@.len() && j != track_num ==> #[trigger] m1.tracks@[j]
                    == m0.tracks@[j])
            &&& m1.clock_ticks == m0.clock_ticks
        },
        ControlMessage::TrackLoopDiv { val, track_num, .. } => {
            &&& (track_num < m0.tracks@.len() ==> ({
                let t0 = m0.tracks@[track_num as int];
                let t1 = m1.tracks@[track_num as int];
                &&& spec_track_same_params(t0, t1)
                &&& t0.generator.aux_unchanged(t1.generator)
                &&& t1.generator.spec_gen() == (crate::gen::SampleGen {
                    next_loop_div: if val >= 1 {
                        val
                    } else {
                        t0.generator.spec_gen().next_loop_div
                    },
                    ..t0.generator.spec_gen()
                })
            }))
            &&& (forall|j: int|
                0 <= j < m0.tracks@.len() && j != track_num ==> #[trigger] m1.tracks@[j]
                    == m0.tracks@[j])
            &&& m1.clock_ticks == m0.clock_ticks
        },
        ControlMessage::Slicer { track_num, .. } => {
            &&& (track_num < m0.tracks@.len() ==> ({
                let t0 = m0.tracks@[track_num as int];
                let t1 = m1.tracks@[track_num as int];
                &&& spec_track_same_params(t0, t1)
                &&& Generator::spec_message_rel(t0.generator, t1.generator, command)
            }))
            &&& (forall|j: int|
                0 <= j < m0.tracks@.len() && j != track_num ==> #[trigger] m1.tracks@[j]
                    == m0.tracks@[j])
            &&& m1.clock_ticks == m0.clock_ticks
        },
        ControlMessage::Playback(pm) => match pm.sync {
            SyncMessage::Start => {
                &&& m1.clock_ticks == 0
                &&& (forall|j: int|
                    0 <= j < m0.tracks@.len() ==> spec_track_played(
                        m0.tracks@[j],
                        #[trigger] m1.tracks@[j],
                    ))
            },
            SyncMessage::Stop => {
                &&& m1.clock_ticks == 0
                &&& (forall|j: int|
                    0 <= j < m0.tracks@.len() ==> spec_track_stopped(
                        m0.tracks@[j],
                        #[trigger] m1.tracks@[j],
                    ))
            },
            SyncMessage::Tick(_) => {
                &&& m1.clock_ticks == if m0.clock_ticks < clock::TICKS_MAX {
                    m0.clock_ticks + 1
                } else {
                    m0.clock_ticks as int
                }
                &&& (forall|j: int|
                    0 <= j < m0.tracks@.len() ==> spec_track_synced(
                        m0.tracks@[j],
                        #[trigger] m1.tracks@[j],
                        spec_clamp_tempo(pm.time.tempo as int) as u64,
                        m0.clock_ticks,
                    ))
            },
        },
    }
}

impl AudioMixer {
    /// Mixer bounds: every track workable, the tick counter inside the
    /// clock arithmetic, the hub inside its capacity.
    pub open spec fn wf(self) -> bool {
        &&& forall|i: int| 0 <= i < self.tracks@.len() ==> (#[trigger] self.tracks@[i]).wf()
        &&& self.clock_ticks <= clock::TICKS_MAX
        &&& self.hub.wf()
    }

    /// Builds the mixer from a loaded library and the configured track
    /// list: one track per entry, each locked to its bank with the bank's
    /// first well-formed sample loaded.
    pub fn new(sample_lib: SampleLib, track_types: &Vec<TrackType>) -> (r: AudioMixer)
        ensures
            r.wf(),
            r.tracks@.len() == track_types@.len(),
            r.clock_ticks == 0,
            r.hub.view().len() == 0,
            r.sample_lib == sample_lib,
            forall|i: int|
                0 <= i < track_types@.len() ==> spec_fresh_track(
                    sample_lib,
                    track_types@[i],
                    #[trigger] r.tracks@[i],
                ),
    {
        let mut tracks: Vec<AudioTrack> = Vec::new();
        let mut i: usize = 0;
        while i < track_types.len()
            invariant
                i <= track_types@.len(),
                tracks@.len() == i,
                forall|j: int| 0 <= j < i ==> (#[trigger] tracks@[j]).wf(),
                forall|j: int|
                    0 <= j < i ==> spec_fresh_track(
                        sample_lib,
                        track_types@[j],
                        #[trigger] tracks@[j],
                    ),
            decreases track_types@.len() - i,
        {
            let (generator, bank) = match track_types[i] {
                TrackType::RePitchGen { bank } => (Generator::RePitch(RePitchGen::new()), bank),
                TrackType::SlicerGen { bank } => (Generator::Slicer(SlicerGen::new()), bank),
                TrackType::PVOCGen { bank } => (Generator::Pvoc(PVOCGen::new()), bank),
            };
            let mut track = AudioTrack::new(generator, bank);
            let first = sample_lib.get_first_sample(bank);
            if first.check_loaded() {
                track.load_buffer(first);
            }
            tracks.push(track);
            i = i + 1;
        }
        AudioMixer { sample_lib, tracks, clock_ticks: 0, hub: ControlHub::new() }
    }

    /// Number of tracks.
    pub fn get_tracks_number(&self) -> (r: usize)
        ensures
            r == self.tracks@.len(),
    {
        self.tracks.len()
    }

    /// Offers a control message to the hub; a full hub drops it.
    pub fn push_message(&mut self, m: ControlMessage) -> (accepted: bool)
        requires
            old(self).wf(),
        ensures
            final(self).wf(),
            accepted == (old(self).hub.view().len() < crate::control::CONTROL_QUEUE_CAPACITY),
            final(self).tracks == old(self).tracks,
            final(self).clock_ticks == old(self).clock_ticks,
    {
        self.hub.push(m)
    }

    /// Applies one control message. Volume, pan, selector, loop-divider
    /// and slicer messages dispatch to their track — an out-of-range
    /// track number is silently ignored; values are clamped into the
    /// parameter domain. A selector move loads the neighboring sample in
    /// its direction. Transport start and stop toggle every track and
    /// rewind the tick counter; a tick synchronizes every track at the
    /// clamped tempo and then advances the counter. The library and the
    /// hub are never touched.
    #[verifier::rlimit(100)]
    #[verifier::spinoff_prover]
    pub fn apply_message(&mut self, command: ControlMessage)
        requires
            old(self).wf(),
        ensures
            final(self).wf(),
            final(self).hub == old(self).hub,
            final(self).sample_lib == old(self).sample_lib,
            final(self).tracks@.len() == old(self).tracks@.len(),
            spec_apply_rel(*old(self), *final(self), command),
    {
        match command {
            ControlMessage::TrackVolume { val, track_num, .. } => {
                if track_num < self.tracks.len() {
                    let clamped = clamp_param(val);
                    self.tracks[track_num].volume.new_value(clamped);
                }
            },
            ControlMessage::TrackPan { val, track_num, .. } => {
                if track_num < self.tracks.len() {
                    let clamped = clamp_param(val);
                    self.tracks[track_num].pan.new_value(clamped);
                }
            },
            ControlMessage::TrackSampleSelect { val, track_num, .. } => {
                if track_num < self.tracks.len() {
                    self.tracks[track_num].sample_select.new_value(val);
                    match self.tracks[track_num].sample_select.get_param() {
                        Direction::Up(_) => {
                            self.load_sibling(track_num, 1);
                        },
                        Direction::Down(_) => {
                            self.load_sibling(track_num, -1);
                        },
                        Direction::Stable(_) => {},
                    }
                }
            },
            ControlMessage::TrackNextSample { track_num, .. } => {
                if track_num < self.tracks.len() {
                    self.load_sibling(track_num, 1);
                }
            },
            ControlMessage::TrackPrevSample { track_num, .. } => {
                if track_num < self.tracks.len() {
                    self.load_sibling(track_num, -1);
                }
            },
            ControlMessage::TrackLoopDiv { val, track_num, .. } => {
                if track_num < self.tracks.len() {
                    self.tracks[track_num].generator.set_loop_div(val);
                }
            },
            ControlMessage::Slicer { track_num, .. } => {
                if track_num < self.tracks.len() {
                    self.tracks[track_num].generator.push_control_message(command);
                }
            },
            ControlMessage::Playback(pm) => {
                match pm.sync {
                    SyncMessage::Start => {
                        let mut i: usize = 0;
                        while i < self.tracks.len()
                            invariant
                                self.wf(),
                                i <= self.tracks@.len(),
                                self.clock_ticks == old(self).clock_ticks,
                                self.hub == old(self).hub,
                                self.sample_lib == old(self).sample_lib,
                                self.tracks@.len() == old(self).tracks@.len(),
                                forall|j: int|
                                    0 <= j < i ==> spec_track_played(
                                        old(self).tracks@[j],
                                        #[trigger] self.tracks@[j],
                                    ),
                                forall|j: int|
                                    i <= j < self.tracks@.len() ==> #[trigger] self.tracks@[j]
                                        == old(self).tracks@[j],
                            decreases self.tracks@.len() - i,
                        {
                            self.tracks[i].generator.play();
                            i = i + 1;
                        }
                        self.clock_ticks = 0;
                    },
                    SyncMessage::Stop => {
                        let mut i: usize = 0;
                        while i < self.tracks.len()
                            invariant
                                self.wf(),
                                i <= self.tracks@.len(),
                                self.clock_ticks == old(self).clock_ticks,
                                self.hub == old(self).hub,
                                self.sample_lib == old(self).sample_lib,
                                self.tracks@.len() == old(self).tracks@.len(),
                                forall|j: int|
                                    0 <= j < i ==> spec_track_stopped(
                                        old(self).tracks@[j],
                                        #[trigger] self.tracks@[j],
                                    ),
                                forall|j: int|
                                    i <= j < self.tracks@.len() ==> #[trigger] self.tracks@[j]
                                        == old(self).tracks@[j],
                            decreases self.tracks@.len() - i,
                        {
                            self.tracks[i].generator.stop();
                            i = i + 1;
                        }
                        self.clock_ticks = 0;
                    },
                    SyncMessage::Tick(_) => {
                        let tempo = clamp_tempo(pm.time.tempo);
                        let ticks = self.clock_ticks;
                        let mut i: usize = 0;
                        while i < self.tracks.len()
                            invariant
                                self.wf(),
                                i <= self.tracks@.len(),
                                self.clock_ticks == old(self).clock_ticks,
                                self.hub == old(self).hub,
                                self.sample_lib == old(self).sample_lib,
                                self.tracks@.len() == old(self).tracks@.len(),
                                1 <= tempo <= clock::GLOBAL_TEMPO_MAX,
                                tempo as int == spec_clamp_tempo(pm.time.tempo as int),
                                ticks == old(self).clock_ticks,
                                ticks <= clock::TICKS_MAX,
                                forall|j: int|
                                    0 <= j < i ==> spec_track_synced(
                                        old(self).tracks@[j],
                                        #[trigger] self.tracks@[j],
                                        tempo,
                                        ticks,
                                    ),
                                forall|j: int|
                                    i <= j < self.tracks@.len() ==> #[trigger] self.tracks@[j]
                                        == old(self).tracks@[j],
                            decreases self.tracks@.len() - i,
                        {
                            self.tracks[i].generator.sync(tempo, ticks);
                            i = i + 1;
                        }
                        if self.clock_ticks < clock::TICKS_MAX {
                            self.clock_ticks = self.clock_ticks + 1;
                        }
                    },
                }
            },
        }
    }

    /// Loads the sample `order` places away from the track's current one
    /// in its bank, when that neighbor is well formed.
    fn load_sibling(&mut self, track_num: usize, order: i64)
        requires
            old(self).wf(),
            track_num < old(self).tracks@.len(),
        ensures
            final(self).wf(),
            final(self).tracks@.len() == old(self).tracks@.len(),
            final(self).clock_ticks == old(self).clock_ticks,
            final(self).hub == old(self).hub,
            final(self).sample_lib == old(self).sample_lib,
            spec_sibling_loaded(
                old(self).sample_lib,
                old(self).tracks@[track_num as int],
                final(self).tracks@[track_num as int],
                order as int,
            ),
            forall|j: int|
                0 <= j < old(self).tracks@.len() && j != track_num ==> #[trigger] final(self).tracks@[j] == old(self).tracks@[j],
    {
        let bank = self.tracks[track_num].bank;
        let name = self.tracks[track_num].sample_name.clone();
        let next = self.sample_lib.get_sibling_sample(bank, name.as_str(), order);
        if next.check_loaded() {
            self.tracks[track_num].load_buffer(next);
        }
    }

    /// Drains the whole control hub, applying each message in arrival
    /// order: the final state is reached from the initial one by one
    /// application step per queued message, in queue order.
    #[verifier::rlimit(100)]
    #[verifier::spinoff_prover]
    pub fn fetch_commands(&mut self)
        requires
            old(self).wf(),
        ensures
            final(self).wf(),
            final(self).hub.view().len() == 0,
            final(self).hub.spec_dropped() == old(self).hub.spec_dropped(),
            final(self).tracks@.len() == old(self).tracks@.len(),
            final(self).sample_lib == old(self).sample_lib,
            exists|states: Seq<AudioMixer>|
                {
                    &&& #[trigger] spec_apply_chain(states, old(self).hub.view())
                    &&& states[0] == *old(self)
                    &&& states.last() == *final(self)
                },
    {
        let ghost msgs = self.hub.view();
        let ghost mut states: Seq<AudioMixer> = seq![*self];
        let mut done: usize = 0;
        loop
            invariant
                self.wf(),
                self.tracks@.len() == old(self).tracks@.len(),
                self.sample_lib == old(self).sample_lib,
                msgs == old(self).hub.view(),
                msgs.len() <= crate::control::CONTROL_QUEUE_CAPACITY,
                done <= msgs.len(),
                self.hub.view() == msgs.subrange(done as int, msgs.len() as int),
                self.hub.spec_dropped() == old(self).hub.spec_dropped(),
                states.len() == done + 1,
                states[0] == *old(self),
                states.last() == *self,
                forall|i: int|
                    0 <= i < done ==> spec_apply_rel(#[trigger] states[i], states[i + 1], msgs[i]),
            ensures
                self.wf(),
                self.hub.view().len() == 0,
                self.hub.spec_dropped() == old(self).hub.spec_dropped(),
                self.tracks@.len() == old(self).tracks@.len(),
                self.sample_lib == old(self).sample_lib,
                states.len() == msgs.len() + 1,
                states[0] == *old(self),
                states.last() == *self,
                forall|i: int|
                    0 <= i < msgs.len() ==> spec_apply_rel(
                        #[trigger] states[i],
                        states[i + 1],
                        msgs[i],
                    ),
            decreases self.hub.view().len(),
        {
            let m = match self.hub.pop() {
                None => {
                    proof {
                        assert(done == msgs.len());
                    }
                    break ;
                },
                Some(m) => m,
            };
            proof {
                assert(m == msgs[done as int]);
                assert(self.hub.view() =~= msgs.subrange(done + 1, msgs.len() as int));
            }
            self.apply_message(m);
            proof {
                states = states.push(*self);
            }
            done = done + 1;
        }
        proof {
            assert(spec_apply_chain(states, msgs));
        }
    }

    /// Produces one audio block's plans: the hub is drained first, so
    /// parameter changes land before audio — the queued messages apply in
    /// order — then every track plans its block, so a stopped track's
    /// plan is silent and a playing one carries its generator's exact
    /// block contract.
    pub fn next_block(&mut self, block_len: usize)
        requires
            old(self).wf(),
            block_len <= 0x10000,
        ensures
            final(self).wf(),
            final(self).hub.view().len() == 0,
            final(self).tracks@.len() == old(self).tracks@.len(),
            final(self).sample_lib == old(self).sample_lib,
            exists|mid: AudioMixer|
                {
                    &&& (exists|states: Seq<AudioMixer>|
                        {
                            &&& #[trigger] spec_apply_chain(states, old(self).hub.view())
                            &&& states[0] == *old(self)
                            &&& states.last() == mid
                        })
                    &&& #[trigger] mid.wf()
                    &&& final(self).clock_ticks == mid.clock_ticks
                    &&& final(self).tracks@.len() == mid.tracks@.len()
                    &&& (forall|i: int|
                        0 <= i < mid.tracks@.len() ==> ({
                            let t0 = mid.tracks@[i];
                            let t1 = #[trigger] final(self).tracks@[i];
                            &&& Generator::spec_block_rel(
                                t0.generator,
                                t1.generator,
                                t1.last_block,
                                block_len,
                            )
                            &&& (t1.last_block is Silent <==> !t0.generator.spec_playing())
                            &&& t1.volume == t0.volume
                            &&& t1.pan == t0.pan
                            &&& t1.sample_select == t0.sample_select
                            &&& t1.bank == t0.bank
                            &&& t1.sample_name == t0.sample_name
                        }))
                },
    {
        self.fetch_commands();
        let ghost mid = *self;
        let mut i: usize = 0;
        while i < self.tracks.len()
            invariant
                self.wf(),
                block_len <= 0x10000,
                i <= self.tracks@.len(),
                self.tracks@.len() == old(self).tracks@.len(),
                self.hub.view().len() == 0,
                self.sample_lib == old(self).sample_lib,
                mid.wf(),
                self.clock_ticks == mid.clock_ticks,
                self.tracks@.len() == mid.tracks@.len(),
                forall|j: int|
                    i <= j < self.tracks@.len() ==> #[trigger] self.tracks@[j] == mid.tracks@[j],
                forall|j: int|
                    0 <= j < i ==> ({
                        let t0 = mid.tracks@[j];
                        let t1 = #[trigger] self.tracks@[j];
                        &&& Generator::spec_block_rel(
                            t0.generator,
                            t1.generator,
                            t1.last_block,
                            block_len,
                        )
                        &&& (t1.last_block is Silent <==> !t0.generator.spec_playing())
                        &&& t1.volume == t0.volume
                        &&& t1.pan == t0.pan
                        &&& t1.sample_select == t0.sample_select
                        &&& t1.bank == t0.bank
                        &&& t1.sample_name == t0.sample_name
                    }),
            decreases self.tracks@.len() - i,
        {
            self.tracks[i].fill_next_block(block_len);
            i = i + 1;
        }
    }

    /// Reads the smoothed volume and pan of a track for one output frame
    /// and steps both ramps.
    pub fn frame_gains(&mut self, track: usize, block_len: usize) -> (r: (i64, i64))
        requires
            old(self).wf(),
            track < old(self).tracks@.len(),
            1 <= block_len,
        ensures
            final(self).wf(),
            final(self).tracks@.len() == old(self).tracks@.len(),
            -PARAM_MAX <= r.0 <= PARAM_MAX,
            -PARAM_MAX <= r.1 <= PARAM_MAX,
            ({
                let t0 = old(self).tracks@[track as int];
                let t1 = final(self).tracks@[track as int];
                &&& r.0 == crate::control::spec_smoothed(
                    t0.volume.prev_val as int,
                    t0.volume.next_val as int,
                    if t0.volume.t <= block_len {
                        t0.volume.t as int
                    } else {
                        block_len as int
                    },
                    block_len as int,
                )
                &&& r.1 == crate::control::spec_smoothed(
                    t0.pan.prev_val as int,
                    t0.pan.next_val as int,
                    if t0.pan.t <= block_len {
                        t0.pan.t as int
                    } else {
                        block_len as int
                    },
                    block_len as int,
                )
                &&& t1.volume.prev_val == t0.volume.prev_val
                &&& t1.volume.next_val == t0.volume.next_val
                &&& t1.volume.t == if t0.volume.t < block_len {
                    t0.volume.t + 1
                } else {
                    t0.volume.t as int
                }
                &&& t1.pan.prev_val == t0.pan.prev_val
                &&& t1.pan.next_val == t0.pan.next_val
                &&& t1.pan.t == if t0.pan.t < block_len {
                    t0.pan.t + 1
                } else {
                    t0.pan.t as int
                }
                &&& t1.generator == t0.generator
                &&& t1.last_block == t0.last_block
                &&& t1.sample_select == t0.sample_select
                &&& t1.bank == t0.bank
                &&& t1.sample_name == t0.sample_name
            }),
            forall|j: int|
                0 <= j < old(self).tracks@.len() && j != track ==> #[trigger] final(self).tracks@[j]
                    == old(self).tracks@[j],
            final(self).clock_ticks == old(self).clock_ticks,
            final(self).hub == old(self).hub,
            final(self).sample_lib == old(self).sample_lib,
    {
        let v = self.tracks[track].volume.get_param(block_len);
        let p = self.tracks[track].pan.get_param(block_len);
        (v, p)
    }
}

/// Clamps a control value into the fixed-point parameter domain.
pub fn clamp_param(v: i64) -> (r: i64)
    ensures
        r == spec_clamp_param(v as int),
        -PARAM_MAX <= r <= PARAM_MAX,
{
    if v < -PARAM_MAX {
        -PARAM_MAX
    } else if v > PARAM_MAX {
        PARAM_MAX
    } else {
        v
    }
}

/// Clamps a transport tempo into the workable whole-BPM domain.
pub fn clamp_tempo(t: u64) -> (r: u64)
    ensures
        r == spec_clamp_tempo(t as int),
        1 <= r <= clock::GLOBAL_TEMPO_MAX,
{
    if t < 1 {
        1
    } else if t > clock::GLOBAL_TEMPO_MAX {
        clock::GLOBAL_TEMPO_MAX
    } else {
        t
    }
}

} // verus!
