use vstd::prelude::*;

use crate::buffer::SmartBuffer;
use crate::clock;
use crate::gen::{SampleGen, SyncFrame};

verus! {

/// Ceiling of the repitch phase accumulator, in milli-BPM-scaled units:
/// the fractional position never outruns one whole step plus one rate
/// increment.
pub const INTERP_NUM_MAX: u64 = 2_000_000_000 + 4_000_000 * 1000;

/// One output frame of the repitch path: the source frames pulled through
/// the click-free reader for this step — their count follows the playback
/// rate — and the interpolation fraction `frac_num / frac_den` the shell
/// blends the last two pulled frames with.
#[derive(Debug, Clone, PartialEq, Eq)]
pub struct RepitchStep {
    /// Frames pulled from the buffer for this output frame, in order.
    pub pulls: Vec<SyncFrame>,
    /// Numerator of the interpolation fraction, below the denominator.
    pub frac_num: u64,
    /// Denominator of the fraction: the buffer's tempo in milli-BPM.
    pub frac_den: u64,
}


impl RePitchGen {
    /// One output step as a function of the state: the pending loop
    /// divider activates on a beat boundary, whole steps of the phase
    /// pull click-free reads, the remaining fraction is handed out, and
    /// the phase advances by the playback rate. Yields the new state, the
    /// pulled frames, and the fraction's numerator and denominator.
    pub open spec fn spec_step(self) -> (RePitchGen, Seq<SyncFrame>, u64, u64) {
        let g0 = SampleGen {
            loop_div: if self.sample_gen.frame_index as int % clock::spec_beat_samples(
                self.sample_gen.smartbuf.spec_tempo() as int,
            ) == 0 {
                self.sample_gen.next_loop_div
            } else {
                self.sample_gen.loop_div
            },
            ..self.sample_gen
        };
        let den = self.sample_gen.smartbuf.spec_tempo();
        let k = (self.interp_num / den) as nat;
        let frac = self.interp_num % den;
        (
            RePitchGen {
                sample_gen: g0.spec_sync_iter(k),
                interp_num: (frac + g0.global_tempo * 1000) as u64,
                ..self
            },
            g0.spec_sync_trace(k),
            frac as u64,
            den,
        )
    }

    /// The generator after `n` output steps.
    pub open spec fn spec_iter(self, n: nat) -> RePitchGen
        decreases n,
    {
        if n == 0 {
            self
        } else {
            self.spec_iter((n - 1) as nat).spec_step().0
        }
    }

    /// The pulls and fractions of `n` output steps, in order.
    pub open spec fn spec_block_trace(self, n: nat) -> Seq<(Seq<SyncFrame>, u64, u64)>
        decreases n,
    {
        if n == 0 {
            Seq::empty()
        } else {
            self.spec_block_trace((n - 1) as nat).push(
                {
                    let step = self.spec_iter((n - 1) as nat).spec_step();
                    (step.1, step.2, step.3)
                },
            )
        }
    }
}

/// A block trace of `n` steps has `n` elements.
proof fn lemma_block_trace_len(g: RePitchGen, n: nat)
    ensures
        g.spec_block_trace(n).len() == n,
    decreases n,
{
    if n > 0 {
        lemma_block_trace_len(g, (n - 1) as nat);
    }
}

/// Element `i` of a block trace is step `i` taken from the `i`-th iterate.
proof fn lemma_block_trace_index(g: RePitchGen, n: nat, i: int)
    requires
        0 <= i < n,
    ensures
        g.spec_block_trace(n)[i] == ({
            let step = g.spec_iter(i as nat).spec_step();
            (step.1, step.2, step.3)
        }),
    decreases n,
{
    let prev = g.spec_block_trace((n - 1) as nat);
    let step = g.spec_iter((n - 1) as nat).spec_step();
    lemma_block_trace_len(g, (n - 1) as nat);
    assert(g.spec_block_trace(n) == prev.push((step.1, step.2, step.3)));
    if i < n - 1 {
        lemma_block_trace_index(g, (n - 1) as nat, i);
        assert(g.spec_block_trace(n)[i] == prev[i]);
    } else {
        assert(g.spec_block_trace(n)[i] == (step.1, step.2, step.3));
    }
}

/// The repitch generator: linear-interpolation playback that follows the
/// global tempo by walking the source at `global_tempo / original_tempo`
/// frames per output frame. The fractional position is held exactly, as
/// a numerator over the original tempo in milli-BPM.
#[derive(Debug, Clone)]
pub struct RePitchGen {
    /// Shared generator state.
    pub sample_gen: SampleGen,
    /// Phase numerator; the denominator is the buffer tempo in milli-BPM.
    pub interp_num: u64,
    /// Global tempo of the playback rate adopted at the last resync.
    pub rate_tempo: u64,
    /// Buffer tempo, in milli-BPM, of the rate adopted at the last resync.
    pub rate_mbpm: u64,
}

impl RePitchGen {
    /// Generator bounds: a workable shared state and a bounded phase.
    pub open spec fn wf(self) -> bool {
        &&& self.sample_gen.wf()
        &&& self.interp_num <= INTERP_NUM_MAX
        &&& 1 <= self.rate_tempo <= clock::GLOBAL_TEMPO_MAX
        &&& clock::tempo_wf(self.rate_mbpm)
    }

    /// A fresh, silent repitch generator.
    pub fn new() -> (r: RePitchGen)
        ensures
            r.wf(),
            !r.sample_gen.playing,
            r.interp_num == 0,
            r.sample_gen.smartbuf.spec_frames().len() == 0,
            r.sample_gen.global_tempo == 120,
            r.rate_tempo == 120,
            r.rate_mbpm == 120_000,
    {
        RePitchGen { sample_gen: SampleGen::new(), interp_num: 0, rate_tempo: 120, rate_mbpm: 120_000 }
    }

    /// Produces one output frame plan: the pending loop divider activates
    /// on a beat boundary, whole steps of the phase pull source frames
    /// through the click-free reader — one pull per whole step — and the
    /// remaining fraction is handed out for the shell's linear blend.
    /// Afterwards the phase advances by the playback rate.
    pub fn next(&mut self) -> (r: RepitchStep)
        requires
            old(self).wf(),
        ensures
            final(self).wf(),
            ({
                let g0 = SampleGen {
                    loop_div: if old(self).sample_gen.frame_index as int
                        % clock::spec_beat_samples(
                        old(self).sample_gen.smartbuf.spec_tempo() as int,
                    ) == 0 {
                        old(self).sample_gen.next_loop_div
                    } else {
                        old(self).sample_gen.loop_div
                    },
                    ..old(self).sample_gen
                };
                let den = old(self).sample_gen.smartbuf.spec_tempo();
                let k = (old(self).interp_num / den) as nat;
                &&& r.frac_den == den
                &&& r.frac_num == old(self).interp_num % den
                &&& r.pulls@.len() == k
                &&& r.pulls@ == g0.spec_sync_trace(k)
                &&& final(self).sample_gen == g0.spec_sync_iter(k)
                &&& final(self).interp_num == old(self).interp_num % den + old(self).sample_gen.global_tempo * 1000
            }),
            final(self).sample_gen.playing == old(self).sample_gen.playing,
            final(self).sample_gen.smartbuf == old(self).sample_gen.smartbuf,
            final(self).sample_gen.global_tempo == old(self).sample_gen.global_tempo,
            final(self).rate_tempo == old(self).rate_tempo,
            final(self).rate_mbpm == old(self).rate_mbpm,
            *final(self) == old(self).spec_step().0,
            r.pulls@ == old(self).spec_step().1,
            r.frac_num == old(self).spec_step().2,
            r.frac_den == old(self).spec_step().3,
    {
        self.sample_gen.activate_loop_div();
        let den = self.sample_gen.smartbuf.original_tempo();
        let ghost g0 = self.sample_gen;
        let mut pulls: Vec<SyncFrame> = Vec::new();
        let ghost k: nat = (self.interp_num / den) as nat;
        proof {
            assert(self.interp_num as int / den as int <= INTERP_NUM_MAX as int / (
            clock::MBPM_MIN as int)) by (nonlinear_arith)
                requires
                    den >= clock::MBPM_MIN && 0 <= self.interp_num <= INTERP_NUM_MAX
                        && clock::MBPM_MIN >= 1,
            ;
        }
        let mut j: usize = 0;
        while self.interp_num >= den
            invariant
                j <= k,
                k <= INTERP_NUM_MAX / clock::MBPM_MIN,
                g0.wf(),
                den == g0.smartbuf.spec_tempo(),
                clock::tempo_wf(den),
                j as int == k - (self.interp_num / den),
                self.interp_num / den + j == k,
                self.interp_num % den == old(self).interp_num % den,
                self.interp_num <= INTERP_NUM_MAX,
                pulls@.len() == j,
                pulls@ == g0.spec_sync_trace(j as nat),
                self.sample_gen == g0.spec_sync_iter(j as nat),
                self.sample_gen.wf(),
                self.sample_gen.playing == g0.playing,
                self.sample_gen.smartbuf == g0.smartbuf,
                self.sample_gen.global_tempo == g0.global_tempo,
                self.rate_tempo == old(self).rate_tempo,
                self.rate_mbpm == old(self).rate_mbpm,
                1 <= self.rate_tempo <= clock::GLOBAL_TEMPO_MAX,
                clock::tempo_wf(self.rate_mbpm),
            decreases self.interp_num,
        {
            proof {
                assert((self.interp_num - den) as int / den as int == self.interp_num as int
                    / den as int - 1) by (nonlinear_arith)
                    requires den >= 1 && self.interp_num >= den;
                assert((self.interp_num - den) as int % den as int == self.interp_num as int
                    % den as int) by (nonlinear_arith)
                    requires den >= 1 && self.interp_num >= den;
            }
            let f = self.sample_gen.sync_get_next_frame();
            pulls.push(f);
            self.interp_num = self.interp_num - den;
            j = j + 1;
        }
        proof {
            assert(self.interp_num / den == 0) by (nonlinear_arith)
                requires den >= 1 && self.interp_num < den;
            assert(self.interp_num % den == self.interp_num) by (nonlinear_arith)
                requires den >= 1 && self.interp_num < den;
        }
        let frac = self.interp_num;
        self.interp_num = frac + self.sample_gen.global_tempo * 1000;
        RepitchStep { pulls, frac_num: frac, frac_den: den }
    }

    /// Produces the plans of one audio block: silence (no plans) while
    /// the generator is stopped, otherwise one step per output frame.
    pub fn next_block(&mut self, block_len: usize) -> (r: Option<Vec<RepitchStep>>)
        requires
            old(self).wf(),
        ensures
            final(self).wf(),
            (r is Some) == old(self).sample_gen.playing,
            final(self).sample_gen.playing == old(self).sample_gen.playing,
            !old(self).sample_gen.playing ==> *final(self) == *old(self),
            r is Some ==> ({
                let blk = r.unwrap();
                &&& blk@.len() == block_len
                &&& *final(self) == old(self).spec_iter(block_len as nat)
                &&& (forall|i: int|
                    0 <= i < block_len ==> ({
                        let step = old(self).spec_block_trace(block_len as nat)[i];
                        &&& (#[trigger] blk@[i]).pulls@ == step.0
                        &&& blk@[i].frac_num == step.1
                        &&& blk@[i].frac_den == step.2
                    }))
            }),
    {
        if !self.sample_gen.playing {
            return None;
        }
        let mut out: Vec<RepitchStep> = Vec::new();
        let mut i: usize = 0;
        while i < block_len
            invariant
                self.wf(),
                self.sample_gen.playing == old(self).sample_gen.playing,
                i <= block_len,
                out@.len() == i,
                *self == old(self).spec_iter(i as nat),
                forall|j: int|
                    0 <= j < i ==> ({
                        let step = old(self).spec_iter(j as nat).spec_step();
                        &&& (#[trigger] out@[j]).pulls@ == step.1
                        &&& out@[j].frac_num == step.2
                        &&& out@[j].frac_den == step.3
                    }),
            decreases block_len - i,
        {
            let step = self.next();
            out.push(step);
            i = i + 1;
        }
        proof {
            assert forall|i2: int| 0 <= i2 < block_len implies ({
                let step = old(self).spec_block_trace(block_len as nat)[i2];
                &&& (#[trigger] out@[i2]).pulls@ == step.0
                &&& out@[i2].frac_num == step.1
                &&& out@[i2].frac_den == step.2
            }) by {
                lemma_block_trace_index(*old(self), block_len as nat, i2);
            }
        }
        Some(out)
    }

    /// Synchronizes to the transport: when the playback rate — the global
    /// tempo over the buffer tempo — differs from the rate adopted at the
    /// last resync, or the clock sits on a beat boundary, the generator
    /// adopts the new rate and starts a click-free jump to the clock's
    /// frame.
    pub fn sync(&mut self, global_tempo: u64, tick: u64)
        requires
            old(self).wf(),
            1 <= global_tempo <= clock::GLOBAL_TEMPO_MAX,
            tick <= clock::TICKS_MAX,
        ensures
            final(self).wf(),
            ({
                let mbpm = old(self).sample_gen.smartbuf.spec_tempo();
                let clock_frames = clock::spec_tick_samples(tick as int, mbpm as int);
                let is_beat = clock_frames % clock::spec_beat_samples(mbpm as int) == 0;
                let resync = global_tempo * old(self).rate_mbpm != old(self).rate_tempo * mbpm
                    || is_beat;
                &&& (resync ==> final(self).sample_gen == (SampleGen {
                    global_tempo,
                    sync_cursor: 0,
                    sync_next_frame_index: clock_frames as u64,
                    ..old(self).sample_gen
                }) && final(self).rate_tempo == global_tempo && final(self).rate_mbpm == mbpm)
                &&& (!resync ==> final(self).sample_gen == old(self).sample_gen && final(self).rate_tempo == old(self).rate_tempo && final(self).rate_mbpm == old(self).rate_mbpm)
                &&& final(self).interp_num == old(self).interp_num
            }),
    {
        let mbpm = self.sample_gen.smartbuf.original_tempo();
        let clock_frames = clock::ticks_to_samples(tick, mbpm);
        let bs = clock::beat_samples(mbpm);
        let is_beat = clock_frames % bs == 0;
        proof {
            assert(global_tempo as int * (self.rate_mbpm as int) <= (clock::GLOBAL_TEMPO_MAX
                as int) * (clock::MBPM_MAX as int) && self.rate_tempo as int * (mbpm as int) <= (
            clock::GLOBAL_TEMPO_MAX as int) * (clock::MBPM_MAX as int)) by (nonlinear_arith)
                requires
                    global_tempo <= clock::GLOBAL_TEMPO_MAX && self.rate_mbpm <= clock::MBPM_MAX
                        && self.rate_tempo <= clock::GLOBAL_TEMPO_MAX && mbpm <= clock::MBPM_MAX
                        && global_tempo >= 0 && self.rate_tempo >= 0;
        }
        if global_tempo * self.rate_mbpm != self.rate_tempo * mbpm || is_beat {
            self.rate_tempo = global_tempo;
            self.rate_mbpm = mbpm;
            self.sample_gen.global_tempo = global_tempo;
            proof {
                assert(clock::spec_tick_samples(tick as int, mbpm as int) <= (clock::TICKS_MAX
                    as int) * (clock::TICK_SAMPLES_SCALED as int) / (clock::MBPM_MIN as int))
                    by (nonlinear_arith)
                    requires
                        tick <= clock::TICKS_MAX && mbpm >= clock::MBPM_MIN && clock::spec_tick_samples(
                            tick as int,
                            mbpm as int,
                        ) == tick as int * (clock::TICK_SAMPLES_SCALED as int) / (mbpm as int),
                ;
            }
            self.sample_gen.sync_set_frame_index(clock_frames);
        }
    }

    /// Copies a new phrase into the local buffer; the fractional phase is
    /// rescaled to the new tempo denominator so its value carries over,
    /// capped at one whole step plus one rate increment.
    pub fn load_buffer(&mut self, smartbuf: &SmartBuffer)
        requires
            old(self).wf(),
            smartbuf.loaded_wf(),
        ensures
            final(self).wf(),
            final(self).sample_gen.smartbuf.obs_eq(*smartbuf),
            final(self).sample_gen == (SampleGen {
                smartbuf: final(self).sample_gen.smartbuf,
                ..old(self).sample_gen
            }),
            final(self).rate_tempo == old(self).rate_tempo,
            final(self).rate_mbpm == old(self).rate_mbpm,
            ({
                let rescaled = old(self).interp_num as int * smartbuf.spec_tempo() as int / old(self).sample_gen.smartbuf.spec_tempo() as int;
                let cap = smartbuf.spec_tempo() + old(self).sample_gen.global_tempo * 1000;
                final(self).interp_num == if rescaled > cap {
                    cap
                } else {
                    rescaled
                }
            }),
    {
        let old_den = self.sample_gen.smartbuf.original_tempo();
        let new_den = smartbuf.original_tempo();
        proof {
            let num = self.interp_num as int;
            assert(num * new_den as int <= (INTERP_NUM_MAX as int) * (clock::MBPM_MAX as int))
                by (nonlinear_arith)
                requires num <= INTERP_NUM_MAX && new_den <= clock::MBPM_MAX && num >= 0;
            assert(num * new_den as int / old_den as int >= 0) by (nonlinear_arith)
                requires old_den >= 1 && num >= 0 && new_den >= 0;
        }
        let wide: u128 = (self.interp_num as u128) * (new_den as u128);
        let rescaled_wide: u128 = wide / (old_den as u128);
        let cap: u64 = new_den + self.sample_gen.global_tempo * 1000;
        let rescaled: u64 = if rescaled_wide > cap as u128 {
            cap
        } else {
            rescaled_wide as u64
        };
        self.interp_num = rescaled;
        self.sample_gen.smartbuf.copy_from(smartbuf);
    }

    /// Unmutes the generator once audio is loaded.
    pub fn play(&mut self)
        ensures
            final(self).sample_gen == (SampleGen {
                playing: old(self).sample_gen.smartbuf.spec_frames().len() > 0 || old(self).sample_gen.playing,
                ..old(self).sample_gen
            }),
            final(self).interp_num == old(self).interp_num,
            final(self).rate_tempo == old(self).rate_tempo,
            final(self).rate_mbpm == old(self).rate_mbpm,
            old(self).wf() ==> final(self).wf(),
    {
        if self.sample_gen.smartbuf.frames_len() > 0 {
            self.sample_gen.playing = true;
        }
    }

    /// Mutes the generator and rewinds it to the buffer head.
    pub fn stop(&mut self)
        ensures
            final(self).sample_gen == (SampleGen {
                playing: false,
                frame_index: 0,
                sync_cursor: 0,
                sync_next_frame_index: 0,
                ..old(self).sample_gen
            }),
            final(self).interp_num == old(self).interp_num,
            final(self).rate_tempo == old(self).rate_tempo,
            final(self).rate_mbpm == old(self).rate_mbpm,
            old(self).wf() ==> final(self).wf(),
    {
        self.reset();
        self.sample_gen.playing = false;
    }

    /// Rewinds the click-free reader to the buffer head.
    pub fn reset(&mut self)
        ensures
            final(self).sample_gen == (SampleGen {
                frame_index: 0,
                sync_cursor: 0,
                sync_next_frame_index: 0,
                ..old(self).sample_gen
            }),
            final(self).interp_num == old(self).interp_num,
            final(self).rate_tempo == old(self).rate_tempo,
            final(self).rate_mbpm == old(self).rate_mbpm,
            old(self).wf() ==> final(self).wf(),
    {
        self.sample_gen.sync_reset();
    }

    /// Records the spare playback factor.
    pub fn set_playback_mult(&mut self, playback_mult: u64)
        ensures
            final(self).sample_gen == (SampleGen { playback_mult, ..old(self).sample_gen }),
            final(self).interp_num == old(self).interp_num,
            final(self).rate_tempo == old(self).rate_tempo,
            final(self).rate_mbpm == old(self).rate_mbpm,
            old(self).wf() ==> final(self).wf(),
    {
        self.sample_gen.playback_mult = playback_mult;
    }

    /// Records the loop divider to activate at the next beat; zero is
    /// ignored, a divider must stay positive.
    pub fn set_loop_div(&mut self, loop_div: u64)
        ensures
            final(self).sample_gen == (SampleGen {
                next_loop_div: if loop_div >= 1 {
                    loop_div
                } else {
                    old(self).sample_gen.next_loop_div
                },
                ..old(self).sample_gen
            }),
            final(self).interp_num == old(self).interp_num,
            final(self).rate_tempo == old(self).rate_tempo,
            final(self).rate_mbpm == old(self).rate_mbpm,
            old(self).wf() ==> final(self).wf(),
    {
        if loop_div >= 1 {
            self.sample_gen.next_loop_div = loop_div;
        }
    }
}

} // verus!
