use vstd::prelude::*;

use crate::buffer::SmartBuffer;
use crate::clock;
use crate::gen::{SampleGen, SyncFrame};

verus! {

/// Analysis hop of the phase vocoder, in mono samples.
pub const PVOC_HOP_SIZE: usize = 32;

/// Window of the short-time transform.
pub const PVOC_WINDOW_SIZE: usize = 512;

/// Spectral bins per analysis frame: half the window plus one.
pub const PVOC_ANALYSIS_SIZE: usize = 257;

/// Saturation point of the vocoder's hop counters.
pub const PVOC_COUNTER_SAT: u64 = 0x1_0000_0000;

/// The time-stretch schedule of the phase vocoder: how many synthesis
/// frames to interpolate out of each analysis hop. The read position
/// `interp_block * rate` walks the analysis timeline; one synthesis frame
/// is due for every whole read position below the elapsed hop count, so
/// the output runs `1 / rate` times the input length.
#[derive(Debug, Clone, Copy, PartialEq, Eq, Structural)]
pub struct PvocSched {
    /// Analysis hops consumed so far; the first one only warms up.
    pub elapsed_hops: u64,
    /// Synthesis frames produced so far.
    pub interp_block: u64,
    /// Mono samples of synthesized signal waiting to be drained.
    pub pending_out: u64,
}

impl PvocSched {
    /// Counter bounds.
    pub open spec fn wf(self) -> bool {
        &&& self.elapsed_hops <= PVOC_COUNTER_SAT
        &&& self.interp_block <= PVOC_COUNTER_SAT
        &&& self.pending_out <= PVOC_COUNTER_SAT
    }

    /// The read position needed to cover `h` elapsed hops at rate
    /// `tempo/(mbpm/1000)`: the least count of synthesis frames whose read
    /// position reaches the hop count.
    pub open spec fn spec_blocks_needed(h: u64, tempo: u64, mbpm: u64) -> int {
        (h * mbpm + tempo * 1000 - 1) / (tempo * 1000)
    }

    /// One hop as a function of the schedule: the first hop only warms up,
    /// a saturated hop counter freezes the schedule, and otherwise the
    /// read position catches up with the elapsed hops — one synthesis
    /// frame per whole read position below the hop count.
    pub open spec fn spec_hop(self, tempo: u64, mbpm: u64) -> (PvocSched, u64) {
        if self.elapsed_hops == 0 {
            (
                PvocSched {
                    elapsed_hops: 1,
                    pending_out: if self.pending_out + PVOC_HOP_SIZE <= PVOC_COUNTER_SAT {
                        (self.pending_out + PVOC_HOP_SIZE) as u64
                    } else {
                        self.pending_out
                    },
                    ..self
                },
                0,
            )
        } else if self.elapsed_hops >= PVOC_COUNTER_SAT {
            (self, 0)
        } else {
            let needed = PvocSched::spec_blocks_needed(self.elapsed_hops, tempo, mbpm);
            let target = if self.interp_block >= needed {
                self.interp_block as int
            } else if needed <= PVOC_COUNTER_SAT {
                needed
            } else {
                PVOC_COUNTER_SAT as int
            };
            (
                PvocSched {
                    elapsed_hops: (self.elapsed_hops + 1) as u64,
                    interp_block: target as u64,
                    ..self
                },
                (target - self.interp_block) as u64,
            )
        }
    }

    /// A fresh schedule before any hop.
    pub fn new() -> (r: PvocSched)
        ensures
            r == (PvocSched { elapsed_hops: 0, interp_block: 0, pending_out: 0 }),
    {
        PvocSched { elapsed_hops: 0, interp_block: 0, pending_out: 0 }
    }

    /// Resets the schedule after a resync: one hop of history is kept so
    /// synthesis restarts immediately, the read position rewinds. Pending
    /// output stays and fades out through the usual draining.
    pub fn reset(&mut self)
        ensures
            *final(self) == (PvocSched {
                elapsed_hops: 1,
                interp_block: 0,
                ..*old(self)
            }),
    {
        self.elapsed_hops = 1;
        self.interp_block = 0;
    }

    /// Consumes one analysis hop and returns how many synthesis frames it
    /// yields at playback rate `tempo / (mbpm/1000)`: every read position
    /// `interp_block * rate` strictly below the elapsed hop count produces
    /// one frame, so after this call
    /// `interp_block * rate >= elapsed_hops` holds. The very first hop
    /// only warms the analysis and yields one hop of silence.
    pub fn hop(&mut self, tempo: u64, mbpm: u64) -> (emitted: u64)
        requires
            old(self).wf(),
            1 <= tempo <= clock::GLOBAL_TEMPO_MAX,
            clock::MBPM_MIN <= mbpm <= clock::MBPM_MAX,
        ensures
            final(self).wf(),
            old(self).elapsed_hops == 0 ==> ({
                &&& emitted == 0
                &&& final(self).elapsed_hops == 1
                &&& final(self).interp_block == old(self).interp_block
                &&& final(self).pending_out == if old(self).pending_out + PVOC_HOP_SIZE
                    <= PVOC_COUNTER_SAT {
                    old(self).pending_out + PVOC_HOP_SIZE
                } else {
                    old(self).pending_out as int
                }
            }),
            (old(self).elapsed_hops >= 1 && old(self).elapsed_hops < PVOC_COUNTER_SAT) ==> ({
                &&& final(self).elapsed_hops == old(self).elapsed_hops + 1
                &&& emitted == final(self).interp_block - old(self).interp_block
                &&& final(self).interp_block >= old(self).interp_block
                // every synthesis frame read strictly inside the elapsed hops
                &&& (final(self).interp_block < PVOC_COUNTER_SAT ==> final(self).interp_block
                    * (tempo * 1000) >= old(self).elapsed_hops * mbpm)
                &&& (final(self).interp_block > old(self).interp_block ==> (final(self).interp_block - 1) * (tempo * 1000) < old(self).elapsed_hops * mbpm)
            }),
            old(self).elapsed_hops >= PVOC_COUNTER_SAT ==> *final(self) == *old(self) && emitted
                == 0,
            (*final(self), emitted) == old(self).spec_hop(tempo, mbpm),
    {
        if self.elapsed_hops == 0 {
            self.elapsed_hops = 1;
            if self.pending_out + (PVOC_HOP_SIZE as u64) <= PVOC_COUNTER_SAT {
                self.pending_out = self.pending_out + PVOC_HOP_SIZE as u64;
            }
            return 0;
        }
        if self.elapsed_hops >= PVOC_COUNTER_SAT {
            return 0;
        }
        let rate_num: u64 = tempo * 1000;
        let target: u64 = self.elapsed_hops;
        let mut emitted: u64 = 0;
        proof {
            assert(self.interp_block as int * rate_num as int <= PVOC_COUNTER_SAT as int
                * 4_000_000_000 && target as int * mbpm as int <= PVOC_COUNTER_SAT as int * (
            clock::MBPM_MAX as int) && PVOC_COUNTER_SAT as int * 4_000_000_000
                < 0x1_0000_0000_0000_0000 && PVOC_COUNTER_SAT as int * (clock::MBPM_MAX as int)
                < 0x1_0000_0000_0000_0000) by (nonlinear_arith)
                requires
                    self.interp_block <= PVOC_COUNTER_SAT && rate_num <= 4_000_000_000 && target
                        <= PVOC_COUNTER_SAT && mbpm <= clock::MBPM_MAX && self.interp_block >= 0
                        && rate_num >= 0 && target >= 0 && mbpm >= 0,
            ;
        }
        let ghost b0 = self.interp_block;
        while self.interp_block < PVOC_COUNTER_SAT && self.interp_block * rate_num < target * mbpm
            invariant
                old(self).wf(),
                self.elapsed_hops == old(self).elapsed_hops,
                self.pending_out == old(self).pending_out,
                target == old(self).elapsed_hops,
                rate_num == tempo * 1000,
                1 <= tempo <= clock::GLOBAL_TEMPO_MAX,
                clock::MBPM_MIN <= mbpm <= clock::MBPM_MAX,
                self.interp_block >= old(self).interp_block,
                emitted == self.interp_block - old(self).interp_block,
                self.interp_block <= PVOC_COUNTER_SAT,
                self.interp_block > old(self).interp_block ==> (self.interp_block - 1) * rate_num
                    < target * mbpm,
                rate_num <= clock::GLOBAL_TEMPO_MAX * 1000,
                mbpm <= clock::MBPM_MAX,
                target <= PVOC_COUNTER_SAT,
                self.interp_block as int * rate_num as int <= PVOC_COUNTER_SAT as int
                    * 4_000_000_000,
                target as int * mbpm as int <= PVOC_COUNTER_SAT as int * (clock::MBPM_MAX as int),
                PVOC_COUNTER_SAT as int * 4_000_000_000 < 0x1_0000_0000_0000_0000,
                PVOC_COUNTER_SAT as int * (clock::MBPM_MAX as int) < 0x1_0000_0000_0000_0000,
            decreases PVOC_COUNTER_SAT - self.interp_block,
        {
            self.interp_block = self.interp_block + 1;
            emitted = emitted + 1;
            proof {
                assert(self.interp_block as int * rate_num as int <= PVOC_COUNTER_SAT as int
                    * 4_000_000_000) by (nonlinear_arith)
                    requires
                        0 <= self.interp_block <= PVOC_COUNTER_SAT && 0 <= rate_num
                            <= 4_000_000_000,
                ;
            }
        }
        proof {
            let b = self.interp_block as int;
            let x = target as int * mbpm as int;
            let rate = rate_num as int;
            let needed = PvocSched::spec_blocks_needed(target, tempo, mbpm);
            assert(needed == (x + rate - 1) / rate);
            if (b0 as int) * rate >= x {
                if b > b0 {
                    assert((b - 1) * rate >= (b0 as int) * rate) by (nonlinear_arith)
                        requires b - 1 >= b0 && rate >= 0;
                }
                assert(b == b0);
                assert(b0 as int >= needed) by (nonlinear_arith)
                    requires (b0 as int) * rate >= x && rate >= 1 && x >= 0 && needed == (x + rate - 1) / rate;
            } else if b == b0 {
                // the read position was already saturated
                assert(b0 == PVOC_COUNTER_SAT);
                assert(needed > PVOC_COUNTER_SAT) by (nonlinear_arith)
                    requires (b0 as int) * rate < x && rate >= 1 && needed == (x + rate - 1) / rate && b0 == PVOC_COUNTER_SAT;
                assert((b0 as int) < needed);
            } else {
                assert(b > b0);
                if b * rate >= x {
                    assert(b == needed) by (nonlinear_arith)
                        requires b * rate >= x && (b - 1) * rate < x && rate >= 1 && needed == (x + rate - 1) / rate;
                    assert(needed <= PVOC_COUNTER_SAT);
                    assert((b0 as int) < needed) by (nonlinear_arith)
                        requires (b0 as int) * rate < x && rate >= 1 && needed == (x + rate - 1) / rate;
                } else {
                    assert(b == PVOC_COUNTER_SAT);
                    assert(needed > PVOC_COUNTER_SAT) by (nonlinear_arith)
                        requires b * rate < x && rate >= 1 && needed == (x + rate - 1) / rate && b == PVOC_COUNTER_SAT;
                    assert((b0 as int) < needed);
                }
            }
        }
        self.elapsed_hops = self.elapsed_hops + 1;
        emitted
    }
}

/// One full hop of the schedule as seen by the block loop: the hop is
/// consumed and the synthesized samples join the pending account, capped
/// at the counter ceiling.
pub open spec fn spec_sched_step(s: PvocSched, tempo: u64, mbpm: u64) -> PvocSched {
    let hop = s.spec_hop(tempo, mbpm);
    let grown: int = if hop.1 <= 0x100_0000 {
        hop.1 * (PVOC_HOP_SIZE as int)
    } else {
        PVOC_COUNTER_SAT as int
    };
    PvocSched {
        pending_out: if grown <= PVOC_COUNTER_SAT && hop.0.pending_out <= PVOC_COUNTER_SAT
            - grown {
            (hop.0.pending_out + grown) as u64
        } else {
            PVOC_COUNTER_SAT
        },
        ..hop.0
    }
}

/// The schedule after `n` full hops.
pub open spec fn spec_sched_iter(s: PvocSched, n: nat, tempo: u64, mbpm: u64) -> PvocSched
    decreases n,
{
    if n == 0 {
        s
    } else {
        spec_sched_step(spec_sched_iter(s, (n - 1) as nat, tempo, mbpm), tempo, mbpm)
    }
}

/// The reader after one analysis hop: the pending loop divider activates,
/// then one hop of click-free reads runs.
pub open spec fn spec_gen_hop(g: SampleGen) -> SampleGen {
    g.spec_activated().spec_sync_iter(PVOC_HOP_SIZE as nat)
}

/// The reader after `n` analysis hops.
pub open spec fn spec_gen_hop_iter(g: SampleGen, n: nat) -> SampleGen
    decreases n,
{
    if n == 0 {
        g
    } else {
        spec_gen_hop(spec_gen_hop_iter(g, (n - 1) as nat))
    }
}

/// The frames pulled over `n` analysis hops, in order: each hop reads one
/// run of `PVOC_HOP_SIZE` frames from the activated reader.
pub open spec fn spec_pvoc_pulls(g: SampleGen, n: nat) -> Seq<SyncFrame>
    decreases n,
{
    if n == 0 {
        Seq::empty()
    } else {
        spec_pvoc_pulls(g, (n - 1) as nat) + spec_gen_hop_iter(
            g,
            (n - 1) as nat,
        ).spec_activated().spec_sync_trace(PVOC_HOP_SIZE as nat)
    }
}

/// The refill budget of one block: enough hops to cover the block at the
/// given playback rate, rounded up, plus slack for the warm-up.
pub open spec fn spec_hop_budget(block_len: usize, tempo: u64, mbpm: u64) -> int {
    let rate_ceil = (tempo * 1000 + mbpm - 1) as int / mbpm as int;
    (block_len / PVOC_HOP_SIZE + 2) as int * rate_ceil + 64
}

/// The phase-vocoder generator: a click-free reader feeds mono hops into
/// the vocoder, whose stretch schedule decides how many synthesis frames
/// each hop yields. The spectral arithmetic itself runs outside; the
/// library carries the source frames and the schedule.
#[derive(Debug, Clone)]
pub struct PVOCGen {
    /// Shared generator state.
    pub sample_gen: SampleGen,
    /// The stretch schedule.
    pub sched: PvocSched,
    /// Global tempo of the playback rate adopted at the last resync.
    pub rate_tempo: u64,
    /// Buffer tempo, in milli-BPM, of the rate adopted at the last resync.
    pub rate_mbpm: u64,
}

/// The plan of one phase-vocoder block: the source frames pulled for the
/// analysis hops of this block, hop by hop, and how many synthesis frames
/// each hop yields.
#[derive(Debug, Clone, PartialEq, Eq)]
pub struct PvocBlock {
    /// Source frames pulled through the click-free reader, one run of
    /// `PVOC_HOP_SIZE` per hop taken.
    pub pulls: Vec<SyncFrame>,
    /// Synthesis frames due per hop, aligned with the hop runs.
    pub emitted_per_hop: Vec<u64>,
}

impl PVOCGen {
    /// Generator bounds.
    pub open spec fn wf(self) -> bool {
        &&& self.sample_gen.wf()
        &&& self.sched.wf()
        &&& 1 <= self.rate_tempo <= clock::GLOBAL_TEMPO_MAX
        &&& clock::tempo_wf(self.rate_mbpm)
    }

    /// A fresh, silent vocoder generator.
    pub fn new() -> (r: PVOCGen)
        ensures
            r.wf(),
            !r.sample_gen.playing,
            r.sched == (PvocSched { elapsed_hops: 0, interp_block: 0, pending_out: 0 }),
            r.sample_gen.smartbuf.spec_frames().len() == 0,
            r.sample_gen.global_tempo == 120,
            r.rate_tempo == 120,
            r.rate_mbpm == 120_000,
    {
        PVOCGen {
            sample_gen: SampleGen::new(),
            sched: PvocSched::new(),
            rate_tempo: 120,
            rate_mbpm: 120_000,
        }
    }

    /// Plans one audio block: while the pending synthesized output cannot
    /// cover the block, the pending loop divider activates, one hop of
    /// source frames is pulled through the click-free reader, and the
    /// schedule consumes it. The pulls are exactly the reader's per-hop
    /// trace, each hop's yield is exactly the schedule's, and the refill
    /// stops only once the pending output covers the block or the block's
    /// rate-derived hop budget runs out. Returns nothing while stopped —
    /// the block is silence and nothing advances. Afterwards the block's
    /// worth of output is drained from the pending account.
    #[verifier::rlimit(100)]
    #[verifier::spinoff_prover]
    pub fn next_block(&mut self, block_len: usize) -> (r: Option<PvocBlock>)
        requires
            old(self).wf(),
            block_len <= 0x10000,
        ensures
            final(self).wf(),
            (r is Some) == old(self).sample_gen.playing,
            final(self).sample_gen.playing == old(self).sample_gen.playing,
            !old(self).sample_gen.playing ==> *final(self) == *old(self),
            final(self).rate_tempo == old(self).rate_tempo,
            final(self).rate_mbpm == old(self).rate_mbpm,
            r is Some ==> ({
                let blk = r.unwrap();
                let n = blk.emitted_per_hop@.len();
                let tempo = old(self).sample_gen.global_tempo;
                let mbpm = old(self).sample_gen.smartbuf.spec_tempo();
                let end_sched = spec_sched_iter(old(self).sched, n as nat, tempo, mbpm);
                &&& blk.pulls@.len() == n * (PVOC_HOP_SIZE as int)
                &&& final(self).sample_gen == spec_gen_hop_iter(old(self).sample_gen, n as nat)
                &&& blk.pulls@ == spec_pvoc_pulls(old(self).sample_gen, n as nat)
                &&& (forall|i: int|
                    0 <= i < n ==> #[trigger] blk.emitted_per_hop@[i] == spec_sched_iter(
                        old(self).sched,
                        i as nat,
                        tempo,
                        mbpm,
                    ).spec_hop(tempo, mbpm).1)
                &&& (end_sched.pending_out >= block_len || n == spec_hop_budget(
                    block_len,
                    tempo,
                    mbpm,
                ))
                &&& final(self).sched == (PvocSched {
                    pending_out: if end_sched.pending_out >= block_len {
                        (end_sched.pending_out - block_len) as u64
                    } else {
                        0
                    },
                    ..end_sched
                })
            }),
    {
        if !self.sample_gen.playing {
            return None;
        }
        let mut pulls: Vec<SyncFrame> = Vec::new();
        let mut emitted_per_hop: Vec<u64> = Vec::new();
        let mbpm = self.sample_gen.smartbuf.original_tempo();
        let tempo = self.sample_gen.global_tempo;
        // refill budget: enough hops to cover the block at this rate
        let rate_ceil: u64 = (tempo * 1000 + mbpm - 1) / mbpm;
        proof {
            assert(rate_ceil <= 6_000_000) by (nonlinear_arith)
                requires
                    rate_ceil as int == (tempo * 1000 + mbpm - 1) as int / (mbpm as int) && 1000
                        <= mbpm && tempo * 1000 <= 4_000_000_000 && rate_ceil >= 0,
            ;
            assert((block_len / PVOC_HOP_SIZE + 2) as int * (rate_ceil as int) <= 0x1000int * (
            rate_ceil as int) && 0x1000int * (rate_ceil as int) <= 0x1000int * 6_000_000)
                by (nonlinear_arith)
                requires
                    block_len / PVOC_HOP_SIZE + 2 <= 0x1000 && 0 <= rate_ceil <= 6_000_000,
            ;
        }
        let budget: u64 = (block_len / PVOC_HOP_SIZE + 2) as u64 * rate_ceil + 64;
        let mut fuel: u64 = budget;
        proof {
            assert(pulls@ =~= Seq::<SyncFrame>::empty());
            assert(pulls@ =~= spec_pvoc_pulls(old(self).sample_gen, 0));
        }
        while self.sched.pending_out < block_len as u64 && fuel > 0
            invariant
                self.wf(),
                self.sample_gen.playing == old(self).sample_gen.playing,
                self.rate_tempo == old(self).rate_tempo,
                self.rate_mbpm == old(self).rate_mbpm,
                mbpm == self.sample_gen.smartbuf.spec_tempo(),
                clock::tempo_wf(mbpm),
                tempo == self.sample_gen.global_tempo,
                tempo == old(self).sample_gen.global_tempo,
                1 <= tempo <= clock::GLOBAL_TEMPO_MAX,
                budget == spec_hop_budget(block_len, tempo, mbpm),
                fuel <= budget,
                emitted_per_hop@.len() + fuel == budget,
                pulls@.len() == emitted_per_hop@.len() * (PVOC_HOP_SIZE as int),
                self.sample_gen == spec_gen_hop_iter(
                    old(self).sample_gen,
                    emitted_per_hop@.len() as nat,
                ),
                pulls@ == spec_pvoc_pulls(old(self).sample_gen, emitted_per_hop@.len() as nat),
                self.sched == spec_sched_iter(
                    old(self).sched,
                    emitted_per_hop@.len() as nat,
                    tempo,
                    mbpm,
                ),
                forall|i: int|
                    0 <= i < emitted_per_hop@.len() ==> #[trigger] emitted_per_hop@[i]
                        == spec_sched_iter(old(self).sched, i as nat, tempo, mbpm).spec_hop(
                        tempo,
                        mbpm,
                    ).1,
            decreases fuel,
        {
            let ghost hops0: nat = emitted_per_hop@.len() as nat;
            self.sample_gen.activate_loop_div();
            let ghost g_act = self.sample_gen;
            let ghost pulls_pre = pulls@;
            let mut h: usize = 0;
            while h < PVOC_HOP_SIZE
                invariant
                    self.sample_gen.wf(),
                    self.sched.wf(),
                    self.sample_gen.playing == g_act.playing,
                    self.sample_gen.smartbuf == g_act.smartbuf,
                    self.sample_gen.global_tempo == g_act.global_tempo,
                    h <= PVOC_HOP_SIZE,
                    self.sample_gen == g_act.spec_sync_iter(h as nat),
                    pulls@ == pulls_pre + g_act.spec_sync_trace(h as nat),
                    self.sched == spec_sched_iter(old(self).sched, hops0, tempo, mbpm),
                    self.rate_tempo == old(self).rate_tempo,
                    self.rate_mbpm == old(self).rate_mbpm,
                    1 <= self.rate_tempo <= clock::GLOBAL_TEMPO_MAX,
                    clock::tempo_wf(self.rate_mbpm),
                decreases PVOC_HOP_SIZE - h,
            {
                let f = self.sample_gen.sync_get_next_frame();
                proof {
                    assert(pulls@.push(f) =~= pulls_pre + g_act.spec_sync_trace(h as nat).push(f));
                }
                pulls.push(f);
                h = h + 1;
            }
            proof {
                g_act.lemma_sync_trace_len(PVOC_HOP_SIZE as nat);
                assert(self.sample_gen == spec_gen_hop_iter(old(self).sample_gen, hops0 + 1));
                assert(pulls@ =~= spec_pvoc_pulls(old(self).sample_gen, hops0 + 1));
            }
            let ghost s_before = self.sched;
            let emitted = self.sched.hop(tempo, mbpm);
            let ghost s_mid = self.sched;
            // synthesized samples join the pending output
            let grown: u64 = if emitted <= 0x100_0000 {
                proof {
                    assert(emitted as int * (PVOC_HOP_SIZE as int) <= 0x100_0000int * 32)
                        by (nonlinear_arith)
                        requires 0 <= emitted <= 0x100_0000 && PVOC_HOP_SIZE == 32;
                }
                emitted * (PVOC_HOP_SIZE as u64)
            } else {
                PVOC_COUNTER_SAT
            };
            if grown <= PVOC_COUNTER_SAT && self.sched.pending_out <= PVOC_COUNTER_SAT - grown {
                self.sched.pending_out = self.sched.pending_out + grown;
            } else {
                self.sched.pending_out = PVOC_COUNTER_SAT;
            }
            proof {
                assert(s_before == spec_sched_iter(old(self).sched, hops0, tempo, mbpm));
                assert(s_mid == s_before.spec_hop(tempo, mbpm).0);
                assert(emitted == s_before.spec_hop(tempo, mbpm).1);
                assert(self.sched == spec_sched_step(s_before, tempo, mbpm));
            }
            emitted_per_hop.push(emitted);
            fuel = fuel - 1;
        }
        // the drained block leaves the pending account
        if self.sched.pending_out >= block_len as u64 {
            self.sched.pending_out = self.sched.pending_out - block_len as u64;
        } else {
            self.sched.pending_out = 0;
        }
        Some(PvocBlock { pulls, emitted_per_hop })
    }

    /// Synchronizes to the transport: when the playback rate — the global
    /// tempo over the buffer tempo — differs from the rate adopted at the
    /// last resync, or the clock sits on a beat boundary, the generator
    /// adopts the new rate, starts a click-free jump to the clock's
    /// frame, and resets the stretch schedule.
    pub fn sync(&mut self, global_tempo: u64, tick: u64)
        requires
            old(self).wf(),
            1 <= global_tempo <= clock::GLOBAL_TEMPO_MAX,
            tick <= clock::TICKS_MAX,
        ensures
            final(self).wf(),
            ({
                let mbpm = old(self).sample_gen.smartbuf.spec_tempo();
                let clock_frames = clock::spec_tick_samples(tick as int, mbpm as int);
                let is_beat = clock_frames % clock::spec_beat_samples(mbpm as int) == 0;
                let resync = global_tempo * old(self).rate_mbpm != old(self).rate_tempo * mbpm
                    || is_beat;
                &&& (resync ==> final(self).sample_gen == (SampleGen {
                    global_tempo,
                    sync_cursor: 0,
                    sync_next_frame_index: clock_frames as u64,
                    ..old(self).sample_gen
                }) && final(self).sched == (PvocSched {
                    elapsed_hops: 1,
                    interp_block: 0,
                    ..old(self).sched
                }) && final(self).rate_tempo == global_tempo && final(self).rate_mbpm == mbpm)
                &&& (!resync ==> final(self).sample_gen == old(self).sample_gen && final(self).sched == old(self).sched && final(self).rate_tempo == old(self).rate_tempo
                    && final(self).rate_mbpm == old(self).rate_mbpm)
            }),
    {
        let mbpm = self.sample_gen.smartbuf.original_tempo();
        let clock_frames = clock::ticks_to_samples(tick, mbpm);
        let bs = clock::beat_samples(mbpm);
        let is_beat = clock_frames % bs == 0;
        proof {
            assert(global_tempo as int * (self.rate_mbpm as int) <= (clock::GLOBAL_TEMPO_MAX
                as int) * (clock::MBPM_MAX as int) && self.rate_tempo as int * (mbpm as int) <= (
            clock::GLOBAL_TEMPO_MAX as int) * (clock::MBPM_MAX as int)) by (nonlinear_arith)
                requires
                    global_tempo <= clock::GLOBAL_TEMPO_MAX && self.rate_mbpm <= clock::MBPM_MAX
                        && self.rate_tempo <= clock::GLOBAL_TEMPO_MAX && mbpm <= clock::MBPM_MAX
                        && global_tempo >= 0 && self.rate_tempo >= 0;
        }
        if global_tempo * self.rate_mbpm != self.rate_tempo * mbpm || is_beat {
            self.rate_tempo = global_tempo;
            self.rate_mbpm = mbpm;
            self.sample_gen.global_tempo = global_tempo;
            proof {
                assert(clock::spec_tick_samples(tick as int, mbpm as int) <= (clock::TICKS_MAX
                    as int) * (clock::TICK_SAMPLES_SCALED as int) / (clock::MBPM_MIN as int))
                    by (nonlinear_arith)
                    requires
                        tick <= clock::TICKS_MAX && mbpm >= clock::MBPM_MIN && clock::spec_tick_samples(
                            tick as int,
                            mbpm as int,
                        ) == tick as int * (clock::TICK_SAMPLES_SCALED as int) / (mbpm as int),
                ;
            }
            self.sample_gen.sync_set_frame_index(clock_frames);
            self.sched.reset();
        }
    }

    /// Copies a new phrase into the local buffer.
    pub fn load_buffer(&mut self, smartbuf: &SmartBuffer)
        requires
            old(self).wf(),
            smartbuf.loaded_wf(),
        ensures
            final(self).wf(),
            final(self).sample_gen.smartbuf.obs_eq(*smartbuf),
            final(self).sample_gen == (SampleGen {
                smartbuf: final(self).sample_gen.smartbuf,
                ..old(self).sample_gen
            }),
            final(self).sched == old(self).sched,
            final(self).rate_tempo == old(self).rate_tempo,
            final(self).rate_mbpm == old(self).rate_mbpm,
    {
        self.sample_gen.smartbuf.copy_from(smartbuf);
    }

    /// Unmutes the generator once audio is loaded.
    pub fn play(&mut self)
        ensures
            final(self).sample_gen == (SampleGen {
                playing: old(self).sample_gen.smartbuf.spec_frames().len() > 0 || old(self).sample_gen.playing,
                ..old(self).sample_gen
            }),
            final(self).sched == old(self).sched,
            final(self).rate_tempo == old(self).rate_tempo,
            final(self).rate_mbpm == old(self).rate_mbpm,
            old(self).wf() ==> final(self).wf(),
    {
        if self.sample_gen.smartbuf.frames_len() > 0 {
            self.sample_gen.playing = true;
        }
    }

    /// Mutes the generator, rewinds the reader, and resets the schedule.
    pub fn stop(&mut self)
        ensures
            final(self).sample_gen == (SampleGen {
                playing: false,
                frame_index: 0,
                sync_cursor: 0,
                sync_next_frame_index: 0,
                ..old(self).sample_gen
            }),
            final(self).sched == (PvocSched {
                elapsed_hops: 1,
                interp_block: 0,
                ..old(self).sched
            }),
            final(self).rate_tempo == old(self).rate_tempo,
            final(self).rate_mbpm == old(self).rate_mbpm,
            old(self).wf() ==> final(self).wf(),
    {
        self.reset();
        self.sample_gen.playing = false;
    }

    /// Rewinds the reader and resets the stretch schedule.
    pub fn reset(&mut self)
        ensures
            final(self).sample_gen == (SampleGen {
                frame_index: 0,
                sync_cursor: 0,
                sync_next_frame_index: 0,
                ..old(self).sample_gen
            }),
            final(self).sched == (PvocSched {
                elapsed_hops: 1,
                interp_block: 0,
                ..old(self).sched
            }),
            final(self).rate_tempo == old(self).rate_tempo,
            final(self).rate_mbpm == old(self).rate_mbpm,
            old(self).wf() ==> final(self).wf(),
    {
        self.sample_gen.sync_reset();
        self.sched.reset();
    }

    /// Records the spare playback factor.
    pub fn set_playback_mult(&mut self, playback_mult: u64)
        ensures
            final(self).sample_gen == (SampleGen { playback_mult, ..old(self).sample_gen }),
            final(self).sched == old(self).sched,
            final(self).rate_tempo == old(self).rate_tempo,
            final(self).rate_mbpm == old(self).rate_mbpm,
            old(self).wf() ==> final(self).wf(),
    {
        self.sample_gen.playback_mult = playback_mult;
    }

    /// Records the loop divider to activate at the next beat; zero is
    /// ignored.
    pub fn set_loop_div(&mut self, loop_div: u64)
        ensures
            final(self).sample_gen == (SampleGen {
                next_loop_div: if loop_div >= 1 {
                    loop_div
                } else {
                    old(self).sample_gen.next_loop_div
                },
                ..old(self).sample_gen
            }),
            final(self).sched == old(self).sched,
            final(self).rate_tempo == old(self).rate_tempo,
            final(self).rate_mbpm == old(self).rate_mbpm,
            old(self).wf() ==> final(self).wf(),
    {
        if loop_div >= 1 {
            self.sample_gen.next_loop_div = loop_div;
        }
    }
}

} // verus!
