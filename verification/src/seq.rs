use vstd::prelude::*;

use crate::buffer::SmartBuffer;
use crate::clock;
use crate::positions::PositionsMode;
use crate::slice::{
    spec_slice_iter, spec_slice_step, spec_slice_trace, PlannedFrame, Slice, SLICE_CURSOR_MAX,
    SLICE_LEN_MAX, SLICE_START_MAX,
};
use crate::slicemap::SliceMap;

verus! {

/// Transformations of the playing slice sequence.
#[derive(Debug, Clone, Copy, PartialEq, Eq, Structural)]
pub enum TransformType {
    /// Restore the original slice order.
    Reset,
    /// Swap the slice contents at random, keeping the slot boundaries.
    RandSwap,
    /// Repeat one slice over a bar quantization grid.
    QuantRepeat {
        /// Repeat length as a fraction of a bar: one `quant`-th.
        quant: usize,
        /// Key of the slice to repeat.
        slice_index: usize,
    },
}

/// Capacity of the crossfade queue, in frames.
pub const CROSSFADE_CAPACITY: usize = 512;

/// Saturation point of the inter-tick frame counter.
pub const FRAMES_SYNC_SAT: u64 = 0x1_0000_0000;

/// Saturation point of the local clock; far past every admissible slice
/// key, so a saturated clock still selects the last slice and a consumed
/// cursor.
pub const LOCAL_CLOCK_SAT: u64 = 0x8000_0000;

/// The bounded first-in-first-out queue of pre-transform frames that the
/// emission path crossfades against the post-transform stream.
#[derive(Debug, Clone)]
pub struct CrossfadeQueue {
    items: Vec<PlannedFrame>,
}

impl CrossfadeQueue {
    /// The queued frames, front first.
    pub closed spec fn view(self) -> Seq<PlannedFrame> {
        self.items@
    }

    /// The queue never exceeds its capacity.
    pub open spec fn wf(self) -> bool {
        self.view().len() <= CROSSFADE_CAPACITY
    }

    /// An empty queue.
    pub fn new() -> (r: CrossfadeQueue)
        ensures
            r.wf(),
            r.view().len() == 0,
    {
        CrossfadeQueue { items: Vec::new() }
    }

    /// Frames currently queued.
    pub fn len(&self) -> (r: usize)
        ensures
            r == self.view().len(),
    {
        self.items.len()
    }

    /// Appends a frame; the caller stays below the capacity.
    pub fn enqueue(&mut self, f: PlannedFrame)
        requires
            old(self).view().len() < CROSSFADE_CAPACITY,
        ensures
            final(self).view() == old(self).view().push(f),
            final(self).wf(),
    {
        self.items.push(f);
    }

    /// Removes and returns the front frame of a non-empty queue.
    pub fn dequeue(&mut self) -> (r: PlannedFrame)
        requires
            old(self).wf(),
            old(self).view().len() >= 1,
        ensures
            r == old(self).view()[0],
            final(self).view() == old(self).view().subrange(1, old(self).view().len() as int),
            final(self).wf(),
    {
        self.items.remove(0)
    }
}

/// The repeat step of a bar quantization: one `quant`-th of a four-beat
/// bar at the buffer tempo, in samples.
pub open spec fn spec_quant_step(mbpm: u64, quant: usize) -> int {
    4 * clock::spec_beat_samples(mbpm as int) / quant as int
}

/// The greatest key at or below `clock`; with the head key 0 present and
/// `clock` non-negative this is the slice the clock points into. Scanned
/// from the back, like the emission path does.
pub open spec fn spec_max_key_at_or_below(keys: Seq<usize>, clock: int) -> usize
    decreases keys.len(),
{
    if keys.len() == 0 {
        0
    } else if keys.last() <= clock {
        keys.last()
    } else {
        spec_max_key_at_or_below(keys.drop_last(), clock)
    }
}

/// In a pairwise strictly increasing key sequence starting at 0, the
/// selected key is present, lies at or below the clock, and dominates
/// every key at or below the clock.
pub proof fn lemma_max_key_props(keys: Seq<usize>, clock: int)
    requires
        keys.len() >= 1,
        keys[0] == 0,
        clock >= 0,
        forall|i: int, j: int| 0 <= i < j < keys.len() ==> keys[i] < keys[j],
    ensures
        keys.contains(spec_max_key_at_or_below(keys, clock)),
        spec_max_key_at_or_below(keys, clock) <= clock,
        forall|i: int|
            0 <= i < keys.len() && keys[i] <= clock ==> keys[i] <= spec_max_key_at_or_below(
                keys,
                clock,
            ),
    decreases keys.len(),
{
    if keys.last() <= clock {
        assert(keys.contains(keys.last()));
    } else {
        if keys.len() == 1 {
            assert(keys[0] == 0 && keys.last() == keys[0]);
        } else {
            assert(keys.drop_last()[0] == 0);
            lemma_max_key_props(keys.drop_last(), clock);
            let r = spec_max_key_at_or_below(keys.drop_last(), clock);
            assert(keys.drop_last().contains(r));
            let j = choose|j: int| 0 <= j < keys.drop_last().len() && keys.drop_last()[j] == r;
            assert(keys[j] == r);
            assert(keys.contains(r));
            assert forall|i: int|
                0 <= i < keys.len() && keys[i] <= clock implies keys[i]
                <= spec_max_key_at_or_below(keys, clock) by {
                if i < keys.len() - 1 {
                    assert(keys.drop_last()[i] == keys[i]);
                }
            }
        }
    }
}


/// Rebuilds a slice map from a well-formed positions table: slice `i`
/// spans entries `i` to `i+1` of the table and sits under the key of its
/// start. The resulting map is sound, anchored at key 0, and fits a
/// buffer as long as the table's final entry.
fn rebuild_from_positions(map: &mut SliceMap, positions: &Vec<usize>)
    requires
        positions@.len() >= 2,
        crate::positions::positions_wf(positions@, positions@.last() as nat),
        positions@.last() <= SLICE_START_MAX,
    ensures
        final(map).sound(),
        final(map).spec_keys().len() == positions@.len() - 1,
        final(map).spec_vals().len() == positions@.len() - 1,
        forall|i: int|
            0 <= i < positions@.len() - 1 ==> #[trigger] final(map).spec_keys()[i]
                == positions@[i],
        forall|i: int|
            0 <= i < positions@.len() - 1 ==> #[trigger] final(map).spec_vals()[i] == (Slice {
                id: i as usize,
                start: positions@[i],
                end: positions@[i + 1],
                cursor: 0,
                reverse: false,
            }),
        final(map).fits(positions@.last() as nat),
        final(map).spec_keys()[0] == 0,
{
    let ghost pos = positions@;
    let ghost blen = positions@.last() as nat;
    proof {
        crate::positions::lemma_positions_sorted(pos, blen);
    }
    map.clear();
    let n = positions.len() - 1;
    let mut i: usize = 0;
    while i < n
        invariant
            positions@ == pos,
            crate::positions::positions_wf(pos, blen),
            pos.last() <= SLICE_START_MAX,
            blen == pos.last() as nat,
            forall|a: int, c: int| 0 <= a < c < pos.len() ==> pos[a] < pos[c],
            forall|a: int| 0 <= a < pos.len() ==> pos[a] <= blen,
            n == pos.len() - 1,
            i <= n,
            map.sound(),
            map.spec_keys().len() == i,
            map.spec_vals().len() == i,
            forall|j: int| 0 <= j < i ==> #[trigger] map.spec_keys()[j] == pos[j],
            forall|j: int|
                0 <= j < i ==> #[trigger] map.spec_vals()[j] == (Slice {
                    id: j as usize,
                    start: pos[j],
                    end: pos[j + 1],
                    cursor: 0,
                    reverse: false,
                }),
            forall|j: int| 0 <= j < i ==> (#[trigger] map.spec_vals()[j]).fits(blen),
        decreases n - i,
    {
        let start = positions[i];
        let end = positions[i + 1];
        let v = Slice { id: i, start, end, cursor: 0, reverse: false };
        proof {
            assert(pos[i as int] < pos[i + 1]);
            assert(pos[i + 1] <= blen);
            assert(v.stored_wf());
            assert forall|j: int|
                0 <= j < map.spec_keys().len() implies #[trigger] map.spec_keys()[j] < start by {
                assert(map.spec_keys()[j] == pos[j]);
            }
            assert(!map.spec_contains_key(start));
        }
        map.insert_copy(start, v);
        i = i + 1;
    }
}


/// One frame drawn from the crossfade queue, with the fade position `t`
/// (frames already drained) the shell evaluates the crossfade pair at.
#[derive(Debug, Clone, Copy, PartialEq, Eq, Structural)]
pub struct CrossfadeOut {
    /// The queued pre-transform frame, with its envelope.
    pub frame: PlannedFrame,
    /// Fade position: frames of the queue already drained.
    pub t: u64,
}

/// The sequencer's output for one frame: the newly emitted planned frame
/// — absent while no buffer is loaded, which means silence — and, while
/// the crossfade queue drains, the old frame to mix against it.
#[derive(Debug, Clone, Copy, PartialEq, Eq, Structural)]
pub struct SlicedOut {
    /// The new frame, or silence when no buffer is loaded.
    pub new: Option<PlannedFrame>,
    /// The draining pre-transform frame, if any.
    pub old: Option<CrossfadeOut>,
}

/// The slice sequencer: a local copy of the playing phrase, the original
/// and the currently playing slice maps, the clock that follows the
/// transport, the pending transform, and the crossfade queue that hides
/// transform seams.
#[derive(Debug, Clone)]
pub struct SliceSeq {
    /// Transport ticks at the last sync.
    ticks: u64,
    /// Global tempo in whole beats per minute.
    global_tempo: u64,
    /// Frames emitted since the last sync; refines the tick clock.
    frames_since_sync: u64,
    /// Local copy of the playing phrase, absent until a load.
    local_buffer: Option<SmartBuffer>,
    /// Which positions table cuts the slices.
    positions_mode: PositionsMode,
    /// Slices in original order.
    slices_orig: SliceMap,
    /// Currently playing slices.
    slices_playing: SliceMap,
    /// Key of the slice being consumed.
    curr_slice_idx: usize,
    /// The slice being consumed, a copy with a live cursor.
    curr_slice: Slice,
    /// Transform waiting to be applied on the next frame.
    next_transform: Option<TransformType>,
    /// Queued pre-transform frames for the crossfade.
    crossfade: CrossfadeQueue,
}

impl SliceSeq {
    /// Transport ticks at the last sync.
    pub closed spec fn spec_ticks(self) -> u64 {
        self.ticks
    }

    /// Global tempo in whole beats per minute.
    pub closed spec fn spec_global_tempo(self) -> u64 {
        self.global_tempo
    }

    /// Frames emitted since the last sync.
    pub closed spec fn spec_frames_since_sync(self) -> u64 {
        self.frames_since_sync
    }

    /// The local buffer, absent until a load.
    pub closed spec fn spec_local_buffer(self) -> Option<SmartBuffer> {
        self.local_buffer
    }

    /// The positions mode slices are cut by.
    pub closed spec fn spec_positions_mode(self) -> PositionsMode {
        self.positions_mode
    }

    /// Slices in original order.
    pub closed spec fn spec_orig(self) -> SliceMap {
        self.slices_orig
    }

    /// Currently playing slices.
    pub closed spec fn spec_playing(self) -> SliceMap {
        self.slices_playing
    }

    /// Key of the slice being consumed.
    pub closed spec fn spec_curr_slice_idx(self) -> usize {
        self.curr_slice_idx
    }

    /// The slice being consumed.
    pub closed spec fn spec_curr_slice(self) -> Slice {
        self.curr_slice
    }

    /// The pending transform.
    pub closed spec fn spec_next_transform(self) -> Option<TransformType> {
        self.next_transform
    }

    /// The crossfade queue contents.
    pub closed spec fn spec_crossfade(self) -> Seq<PlannedFrame> {
        self.crossfade.view()
    }

    /// Sequencer soundness: workable clock values, sound maps, a bounded
    /// current slice, and — once a buffer is loaded — well-formed audio
    /// with both maps anchored at key 0 and original slices inside the
    /// buffer.
    pub open spec fn wf(self) -> bool {
        &&& 1 <= self.spec_global_tempo() <= clock::GLOBAL_TEMPO_MAX
        &&& self.spec_ticks() <= clock::TICKS_MAX
        &&& self.spec_frames_since_sync() <= FRAMES_SYNC_SAT
        &&& self.spec_crossfade().len() <= CROSSFADE_CAPACITY
        &&& self.spec_orig().sound()
        &&& self.spec_playing().sound()
        &&& self.spec_curr_slice().start <= self.spec_curr_slice().end
        &&& self.spec_curr_slice().start <= SLICE_START_MAX
        &&& self.spec_curr_slice().spec_len() <= SLICE_LEN_MAX
        &&& self.spec_curr_slice().cursor <= SLICE_CURSOR_MAX
        &&& match self.spec_local_buffer() {
            Some(b) => {
                &&& b.loaded_wf()
                &&& self.spec_playing().spec_keys().len() >= 1
                &&& self.spec_playing().spec_keys()[0] == 0
                &&& self.spec_orig().spec_keys().len() >= 1
                &&& self.spec_orig().spec_keys()[0] == 0
                &&& self.spec_orig().fits(b.spec_frames().len() as nat)
            },
            None => true,
        }
    }

    /// Whether a phrase has been loaded.
    pub fn has_buffer(&self) -> (r: bool)
        ensures
            r == (self.spec_local_buffer() is Some),
    {
        self.local_buffer.is_some()
    }

    /// The key of the slice currently being consumed.
    pub fn current_slice_key(&self) -> (r: usize)
        ensures
            r == self.spec_curr_slice_idx(),
    {
        self.curr_slice_idx
    }

    /// Borrows the currently playing slice map.
    pub fn playing_map(&self) -> (r: &SliceMap)
        ensures
            *r == self.spec_playing(),
    {
        &self.slices_playing
    }

    /// Borrows the original-order slice map.
    pub fn orig_map(&self) -> (r: &SliceMap)
        ensures
            *r == self.spec_orig(),
    {
        &self.slices_orig
    }

    /// Everything except the inter-tick counter and the pending
    /// transform agrees between the two states.
    pub open spec fn same_sequencing_state(self, o: SliceSeq) -> bool {
        &&& self.spec_ticks() == o.spec_ticks()
        &&& self.spec_global_tempo() == o.spec_global_tempo()
        &&& self.spec_local_buffer() == o.spec_local_buffer()
        &&& self.spec_positions_mode() == o.spec_positions_mode()
        &&& self.spec_orig() == o.spec_orig()
        &&& self.spec_playing() == o.spec_playing()
        &&& self.spec_curr_slice_idx() == o.spec_curr_slice_idx()
        &&& self.spec_curr_slice() == o.spec_curr_slice()
        &&& self.spec_crossfade() == o.spec_crossfade()
    }

    /// A fresh, empty sequencer cutting by the given mode.
    pub fn new(mode: PositionsMode) -> (r: SliceSeq)
        ensures
            r.wf(),
            r.spec_local_buffer() is None,
            r.spec_global_tempo() == 120,
            r.spec_ticks() == 0,
            r.spec_frames_since_sync() == 0,
            r.spec_positions_mode() == mode,
            r.spec_next_transform() is None,
            r.spec_crossfade().len() == 0,
    {
        SliceSeq {
            ticks: 0,
            global_tempo: 120,
            frames_since_sync: 0,
            local_buffer: None,
            positions_mode: mode,
            slices_orig: SliceMap::new(),
            slices_playing: SliceMap::new(),
            curr_slice_idx: 0,
            curr_slice: Slice { id: 0, start: 0, end: 0, cursor: 0, reverse: false },
            next_transform: None,
            crossfade: CrossfadeQueue::new(),
        }
    }

    /// The local clock with a given inter-tick frame count: samples
    /// elapsed at the original tempo for the synced ticks, wrapped by the
    /// buffer length, plus the rate-scaled frame count, saturated.
    pub open spec fn spec_clock_after_frames(self, counter: int) -> int {
        match self.spec_local_buffer() {
            Some(b) => {
                let len = b.spec_frames().len() as int;
                let inter = clock::spec_scale_by_rate(
                    counter,
                    self.spec_global_tempo() as int,
                    b.spec_tempo() as int,
                );
                let inter_capped = if inter > LOCAL_CLOCK_SAT {
                    LOCAL_CLOCK_SAT as int
                } else {
                    inter
                };
                let raw = clock::spec_tick_samples(self.spec_ticks() as int, b.spec_tempo() as int)
                    % len + inter_capped;
                if raw > LOCAL_CLOCK_SAT {
                    LOCAL_CLOCK_SAT as int
                } else {
                    raw
                }
            },
            None => 0,
        }
    }

    /// The local clock of the current state, saturated.
    pub open spec fn spec_local_clock(self) -> int {
        self.spec_clock_after_frames(self.spec_frames_since_sync() as int)
    }

    /// Computes the local clock in buffer frames; zero without a buffer.
    pub fn get_local_clock(&self) -> (r: u64)
        requires
            self.wf(),
        ensures
            r == self.spec_local_clock(),
            r <= LOCAL_CLOCK_SAT,
    {
        match &self.local_buffer {
            None => 0,
            Some(b) => {
                let len = b.frames_len() as u64;
                let ticks_part = clock::ticks_to_samples(self.ticks, b.original_tempo()) % len;
                let inter_part = clock::scale_by_rate(
                    self.frames_since_sync,
                    self.global_tempo,
                    b.original_tempo(),
                );
                proof {
                    assert(clock::spec_tick_samples(self.ticks as int, b.spec_tempo() as int) % (
                    len as int) < len) by (nonlinear_arith)
                        requires
                            len >= 1 && clock::spec_tick_samples(
                                self.ticks as int,
                                b.spec_tempo() as int,
                            ) >= 0,
                    ;
                }
                let inter_capped = if inter_part > LOCAL_CLOCK_SAT {
                    LOCAL_CLOCK_SAT
                } else {
                    inter_part
                };
                let raw = ticks_part + inter_capped;
                if raw > LOCAL_CLOCK_SAT {
                    LOCAL_CLOCK_SAT
                } else {
                    raw
                }
            },
        }
    }

    /// Advances the inter-tick frame counter by one emitted frame,
    /// saturating far past any admissible clock.
    pub fn new_frame(&mut self)
        ensures
            final(self).same_sequencing_state(*old(self)),
            final(self).spec_next_transform() == old(self).spec_next_transform(),
            final(self).spec_frames_since_sync() == if old(self).spec_frames_since_sync()
                < FRAMES_SYNC_SAT {
                old(self).spec_frames_since_sync() + 1
            } else {
                old(self).spec_frames_since_sync() as int
            },
    {
        if self.frames_since_sync < FRAMES_SYNC_SAT {
            self.frames_since_sync = self.frames_since_sync + 1;
        }
    }

    /// Stores the transform to apply on the next emitted frame.
    pub fn push_transform(&mut self, t: Option<TransformType>)
        ensures
            final(self).same_sequencing_state(*old(self)),
            final(self).spec_frames_since_sync() == old(self).spec_frames_since_sync(),
            final(self).spec_next_transform() == t,
    {
        self.next_transform = t;
    }

    /// The key of the currently playing slice: the greatest key at or
    /// below the local clock.
    pub fn current_slice_idx(&self) -> (r: usize)
        requires
            self.wf(),
            self.spec_local_buffer() is Some,
        ensures
            r == spec_max_key_at_or_below(
                self.spec_playing().spec_keys(),
                self.spec_local_clock(),
            ),
            self.spec_playing().spec_contains_key(r),
            r <= self.spec_local_clock(),
    {
        let clock_frames = self.get_local_clock();
        let keys = self.slices_playing.ord_keys();
        let ghost kseq = self.spec_playing().spec_keys();
        proof {
            self.slices_playing.lemma_keys_sorted();
            lemma_max_key_props(kseq, self.spec_local_clock());
            assert(kseq.subrange(0, kseq.len() as int) =~= kseq);
        }
        let mut i: usize = keys.len();
        while i > 0
            invariant
                self.wf(),
                self.spec_local_buffer() is Some,
                kseq == self.spec_playing().spec_keys(),
                keys@ == kseq,
                i <= kseq.len(),
                kseq.len() >= 1,
                spec_max_key_at_or_below(kseq, self.spec_local_clock())
                    == spec_max_key_at_or_below(
                    kseq.subrange(0, i as int),
                    self.spec_local_clock(),
                ),
                clock_frames == self.spec_local_clock(),
            decreases i,
        {
            proof {
                self.slices_playing.lemma_keys_sorted();
                lemma_max_key_props(kseq, self.spec_local_clock());
                assert(kseq.subrange(0, i as int).last() == kseq[i - 1]);
                assert(kseq.subrange(0, i as int).drop_last() =~= kseq.subrange(0, i - 1));
            }
            if keys[i - 1] as u64 <= clock_frames {
                return keys[i - 1];
            }
            i = i - 1;
        }
        proof {
            assert(kseq.subrange(0, 0) =~= Seq::<usize>::empty());
            assert(spec_max_key_at_or_below(kseq, self.spec_local_clock()) == 0);
            assert(kseq[0] == 0);
            assert(kseq.contains(kseq[0]));
        }
        0
    }

    /// The clock, buffer, mode, maps and transform agree between the two
    /// states; only the current slice and the crossfade queue may differ.
    pub open spec fn same_except_emission(self, o: SliceSeq) -> bool {
        &&& self.spec_ticks() == o.spec_ticks()
        &&& self.spec_global_tempo() == o.spec_global_tempo()
        &&& self.spec_frames_since_sync() == o.spec_frames_since_sync()
        &&& self.spec_local_buffer() == o.spec_local_buffer()
        &&& self.spec_positions_mode() == o.spec_positions_mode()
        &&& self.spec_orig() == o.spec_orig()
        &&& self.spec_playing() == o.spec_playing()
        &&& self.spec_next_transform() == o.spec_next_transform()
    }

    /// Primes the crossfade queue: the current slice emits frames until
    /// the queue is full, so a following transform or buffer swap fades
    /// against what would have played.
    pub fn fill_crossfade_buffer(&mut self)
        requires
            old(self).wf(),
        ensures
            final(self).wf(),
            final(self).same_except_emission(*old(self)),
            final(self).spec_curr_slice_idx() == old(self).spec_curr_slice_idx(),
            match old(self).spec_local_buffer() {
                None => {
                    &&& final(self).spec_curr_slice() == old(self).spec_curr_slice()
                    &&& final(self).spec_crossfade() == old(self).spec_crossfade()
                },
                Some(b) => {
                    let k = (CROSSFADE_CAPACITY - old(self).spec_crossfade().len()) as nat;
                    let tempo = old(self).spec_global_tempo() as int;
                    let mbpm = b.spec_tempo() as int;
                    &&& final(self).spec_crossfade() == old(self).spec_crossfade()
                        + spec_slice_trace(
                        old(self).spec_curr_slice(),
                        b.spec_frames(),
                        tempo,
                        mbpm,
                        k,
                    )
                    &&& final(self).spec_curr_slice() == spec_slice_iter(
                        old(self).spec_curr_slice(),
                        b.spec_frames(),
                        tempo,
                        mbpm,
                        k,
                    )
                },
            },
    {
        let tempo = self.global_tempo;
        let local = match &self.local_buffer {
            None => {
                return ;
            },
            Some(b) => b,
        };
        let frames = local.frames();
        let mbpm = local.original_tempo();
        let ghost old_q = self.crossfade.view();
        let ghost old_cur = self.curr_slice;
        let ghost b = old(self).spec_local_buffer().unwrap();
        let mut j: usize = 0;
        let fill: usize = CROSSFADE_CAPACITY - self.crossfade.len();
        while j < fill
            invariant
                old(self).wf(),
                old(self).spec_local_buffer() is Some,
                b == old(self).spec_local_buffer().unwrap(),
                frames@ == b.spec_frames(),
                tempo == old(self).spec_global_tempo(),
                mbpm == b.spec_tempo(),
                old_q == old(self).spec_crossfade(),
                old_cur == old(self).spec_curr_slice(),
                fill == CROSSFADE_CAPACITY - old_q.len(),
                j <= fill,
                self.spec_crossfade().len() == old_q.len() + j,
                self.spec_crossfade() == old_q + spec_slice_trace(
                    old_cur,
                    b.spec_frames(),
                    tempo as int,
                    mbpm as int,
                    j as nat,
                ),
                self.spec_curr_slice() == spec_slice_iter(
                    old_cur,
                    b.spec_frames(),
                    tempo as int,
                    mbpm as int,
                    j as nat,
                ),
                self.spec_curr_slice().start == old_cur.start,
                self.spec_curr_slice().end == old_cur.end,
                self.spec_curr_slice().cursor <= SLICE_CURSOR_MAX,
                self.spec_ticks() == old(self).spec_ticks(),
                self.spec_global_tempo() == old(self).spec_global_tempo(),
                self.spec_frames_since_sync() == old(self).spec_frames_since_sync(),
                self.spec_local_buffer() == old(self).spec_local_buffer(),
                self.spec_positions_mode() == old(self).spec_positions_mode(),
                self.spec_orig() == old(self).spec_orig(),
                self.spec_playing() == old(self).spec_playing(),
                self.spec_next_transform() == old(self).spec_next_transform(),
                self.spec_curr_slice_idx() == old(self).spec_curr_slice_idx(),
            decreases fill - j,
        {
            let pf = self.curr_slice.next_frame(frames, tempo, mbpm);
            self.crossfade.enqueue(pf);
            j = j + 1;
        }
    }

    /// Re-reads the current slice from the playing map and advances its
    /// cursor to the local clock, so emission continues exactly where the
    /// clock points.
    #[verifier::rlimit(100)]
    #[verifier::spinoff_prover]
    pub fn adjust_current_slice(&mut self)
        requires
            old(self).wf(),
            old(self).spec_local_buffer() is Some,
        ensures
            final(self).wf(),
            final(self).same_except_emission(*old(self)),
            final(self).spec_crossfade() == old(self).spec_crossfade(),
            ({
                let clock = old(self).spec_local_clock();
                let idx = spec_max_key_at_or_below(old(self).spec_playing().spec_keys(), clock);
                let s = old(self).spec_playing().spec_get(idx).unwrap();
                &&& final(self).spec_curr_slice_idx() == idx
                &&& final(self).spec_curr_slice() == (Slice {
                    cursor: (clock - idx) as usize,
                    ..s
                })
            }),
    {
        let idx = self.current_slice_idx();
        let mut curr = match self.slices_playing.get_by_copy(&idx) {
            Some(s) => s,
            None => {
                // unreachable: the selected key is present
                Slice { id: 0, start: 0, end: 1, cursor: 0, reverse: false }
            },
        };
        proof {
            self.slices_playing.lemma_key_index(idx);
        }
        let clock = self.get_local_clock();
        let gap = (clock - idx as u64) as usize;
        curr.cursor = curr.cursor + gap;
        self.curr_slice_idx = idx;
        self.curr_slice = curr;
    }

    /// Reloads the current slice from the playing map when the clock has
    /// crossed into another slot; inside the same slot nothing changes.
    pub fn update_curr_slice(&mut self)
        requires
            old(self).wf(),
        ensures
            final(self).wf(),
            final(self).same_except_emission(*old(self)),
            final(self).spec_crossfade() == old(self).spec_crossfade(),
            match old(self).spec_local_buffer() {
                None => {
                    &&& final(self).spec_curr_slice_idx() == old(self).spec_curr_slice_idx()
                    &&& final(self).spec_curr_slice() == old(self).spec_curr_slice()
                },
                Some(b) => {
                    let idx = spec_max_key_at_or_below(
                        old(self).spec_playing().spec_keys(),
                        old(self).spec_local_clock(),
                    );
                    &&& final(self).spec_curr_slice_idx() == idx
                    &&& (idx != old(self).spec_curr_slice_idx() ==> final(self).spec_curr_slice()
                        == old(self).spec_playing().spec_get(idx).unwrap())
                    &&& (idx == old(self).spec_curr_slice_idx() ==> final(self).spec_curr_slice()
                        == old(self).spec_curr_slice())
                },
            },
    {
        if self.local_buffer.is_none() {
            return ;
        }
        let idx = self.current_slice_idx();
        if idx != self.curr_slice_idx {
            let next_curr = match self.slices_playing.get_by_copy(&idx) {
                Some(s) => s,
                None => {
                    // unreachable: the selected key is present
                    Slice { id: 0, start: 0, end: 1, cursor: 0, reverse: false }
                },
            };
            proof {
                self.slices_playing.lemma_key_index(idx);
            }
            self.curr_slice_idx = idx;
            self.curr_slice = next_curr;
        }
    }

    /// Synchronizes the sequencer to the transport: adopts the tick count
    /// and the global tempo and clears the inter-tick counter. A tempo
    /// change first primes the crossfade queue at the old tempo, so the
    /// jump fades instead of clicking.
    pub fn sync(&mut self, global_tempo: u64, ticks: u64)
        requires
            old(self).wf(),
            1 <= global_tempo <= clock::GLOBAL_TEMPO_MAX,
            ticks <= clock::TICKS_MAX,
        ensures
            final(self).wf(),
            final(self).spec_ticks() == ticks,
            final(self).spec_global_tempo() == global_tempo,
            final(self).spec_frames_since_sync() == 0,
            final(self).spec_local_buffer() == old(self).spec_local_buffer(),
            final(self).spec_positions_mode() == old(self).spec_positions_mode(),
            final(self).spec_orig() == old(self).spec_orig(),
            final(self).spec_playing() == old(self).spec_playing(),
            final(self).spec_next_transform() == old(self).spec_next_transform(),
            final(self).spec_curr_slice_idx() == old(self).spec_curr_slice_idx(),
            global_tempo == old(self).spec_global_tempo() ==> final(self).spec_curr_slice() == old(self).spec_curr_slice() && final(self).spec_crossfade() == old(self).spec_crossfade(),
            (global_tempo != old(self).spec_global_tempo() && old(self).spec_local_buffer()
                is Some) ==> ({
                let b = old(self).spec_local_buffer().unwrap();
                let k = (CROSSFADE_CAPACITY - old(self).spec_crossfade().len()) as nat;
                let tempo = old(self).spec_global_tempo() as int;
                let mbpm = b.spec_tempo() as int;
                &&& final(self).spec_crossfade() == old(self).spec_crossfade() + spec_slice_trace(
                    old(self).spec_curr_slice(),
                    b.spec_frames(),
                    tempo,
                    mbpm,
                    k,
                )
                &&& final(self).spec_curr_slice() == spec_slice_iter(
                    old(self).spec_curr_slice(),
                    b.spec_frames(),
                    tempo,
                    mbpm,
                    k,
                )
            }),
    {
        if self.global_tempo != global_tempo {
            self.fill_crossfade_buffer();
        }
        self.ticks = ticks;
        self.global_tempo = global_tempo;
        self.frames_since_sync = 0;
    }

    /// Copies a new phrase into the local slot and rebuilds both slice
    /// maps from its positions table: slice `i` spans the table's entries
    /// `i` to `i+1` and sits under the key of its start. The crossfade
    /// queue is primed first so the swap fades in, and the current slice
    /// is adjusted to the clock over the new map.
    #[verifier::rlimit(100)]
    #[verifier::spinoff_prover]
    pub fn load_buffer(&mut self, buffer: &SmartBuffer)
        requires
            old(self).wf(),
            buffer.loaded_wf(),
        ensures
            final(self).wf(),
            final(self).spec_ticks() == old(self).spec_ticks(),
            final(self).spec_global_tempo() == old(self).spec_global_tempo(),
            final(self).spec_frames_since_sync() == old(self).spec_frames_since_sync(),
            final(self).spec_positions_mode() == old(self).spec_positions_mode(),
            final(self).spec_next_transform() == old(self).spec_next_transform(),
            final(self).spec_local_buffer() is Some,
            ({
                let nb = final(self).spec_local_buffer().unwrap();
                &&& nb.spec_frames() == buffer.spec_frames()
                &&& nb.spec_file_name() == buffer.spec_file_name()
                &&& nb.spec_tempo() == buffer.spec_tempo()
                &&& nb.spec_num_beats() == buffer.spec_num_beats()
                &&& forall|mode: PositionsMode| #[trigger]
                    nb.spec_positions(mode) == buffer.spec_positions(mode)
            }),
            ({
                let pos = buffer.spec_positions(old(self).spec_positions_mode());
                let n = pos.len() - 1;
                &&& final(self).spec_orig().spec_keys().len() == n
                &&& (forall|i: int|
                    0 <= i < n ==> #[trigger] final(self).spec_orig().spec_keys()[i] == pos[i])
                &&& (forall|i: int|
                    0 <= i < n ==> #[trigger] final(self).spec_orig().spec_vals()[i] == (Slice {
                        id: i as usize,
                        start: pos[i],
                        end: pos[i + 1],
                        cursor: 0,
                        reverse: false,
                    }))
                &&& final(self).spec_playing().spec_keys() == final(self).spec_orig().spec_keys()
                &&& final(self).spec_playing().spec_vals() == final(self).spec_orig().spec_vals()
            }),
            ({
                let clock = final(self).spec_local_clock();
                let idx = spec_max_key_at_or_below(final(self).spec_playing().spec_keys(), clock);
                let s = final(self).spec_playing().spec_get(idx).unwrap();
                &&& final(self).spec_curr_slice_idx() == idx
                &&& final(self).spec_curr_slice() == (Slice {
                    cursor: (clock - idx) as usize,
                    ..s
                })
            }),
            old(self).spec_local_buffer() is None ==> final(self).spec_crossfade() == old(self).spec_crossfade(),
            old(self).spec_local_buffer() is Some ==> ({
                let b0 = old(self).spec_local_buffer().unwrap();
                let k = (CROSSFADE_CAPACITY - old(self).spec_crossfade().len()) as nat;
                final(self).spec_crossfade() == old(self).spec_crossfade() + spec_slice_trace(
                    old(self).spec_curr_slice(),
                    b0.spec_frames(),
                    old(self).spec_global_tempo() as int,
                    b0.spec_tempo() as int,
                    k,
                )
            }),
    {
        self.fill_crossfade_buffer();

        match &mut self.local_buffer {
            Some(local) => {
                local.copy_from(buffer);
            },
            None => {
                let mut fresh = SmartBuffer::new_empty();
                fresh.copy_from(buffer);
                self.local_buffer = Some(fresh);
            },
        }
        proof {
            let nb = self.spec_local_buffer().unwrap();
            assert forall|mode: PositionsMode|
                crate::positions::positions_wf(
                    #[trigger] nb.spec_positions(mode),
                    nb.spec_frames().len() as nat,
                ) by {
                assert(nb.spec_positions(mode) == buffer.spec_positions(mode));
            }
            assert(nb.loaded_wf());
        }

        let positions = match &self.local_buffer {
            Some(local) => local.positions(self.positions_mode),
            None => {
                // unreachable: the local slot was just filled
                return ;
            },
        };
        proof {
            assert(positions@.last() == buffer.spec_frames().len());
        }
        rebuild_from_positions(&mut self.slices_orig, positions);
        let orig_ref = &self.slices_orig;
        self.slices_playing.copy_from(orig_ref);
        self.adjust_current_slice();
    }

    /// Applies a pending transform, if any: the crossfade queue is primed
    /// from the current slice, the playing map is reordered — restored,
    /// swapped at random, or rebuilt as one slice repeated over a bar
    /// grid — and the current slice is adjusted back to the clock. A
    /// transform that names a missing slice, a zero quantization, or a
    /// playing map whose keys left the original map is ignored.
    #[verifier::rlimit(100)]
    #[verifier::spinoff_prover]
    pub fn apply_transform(&mut self)
        requires
            old(self).wf(),
        ensures
            final(self).wf(),
            final(self).spec_next_transform() is None,
            final(self).spec_ticks() == old(self).spec_ticks(),
            final(self).spec_global_tempo() == old(self).spec_global_tempo(),
            final(self).spec_frames_since_sync() == old(self).spec_frames_since_sync(),
            final(self).spec_local_buffer() == old(self).spec_local_buffer(),
            final(self).spec_positions_mode() == old(self).spec_positions_mode(),
            final(self).spec_orig() == old(self).spec_orig(),
            old(self).spec_next_transform() is None ==> ({
                &&& final(self).spec_playing() == old(self).spec_playing()
                &&& final(self).spec_curr_slice_idx() == old(self).spec_curr_slice_idx()
                &&& final(self).spec_curr_slice() == old(self).spec_curr_slice()
                &&& final(self).spec_crossfade() == old(self).spec_crossfade()
            }),
            (old(self).spec_next_transform() is Some && old(self).spec_local_buffer() is Some)
                ==> ({
                let b = old(self).spec_local_buffer().unwrap();
                let k = (CROSSFADE_CAPACITY - old(self).spec_crossfade().len()) as nat;
                &&& final(self).spec_crossfade() == old(self).spec_crossfade() + spec_slice_trace(
                    old(self).spec_curr_slice(),
                    b.spec_frames(),
                    old(self).spec_global_tempo() as int,
                    b.spec_tempo() as int,
                    k,
                )
                &&& ({
                    let clock = final(self).spec_local_clock();
                    let idx = spec_max_key_at_or_below(
                        final(self).spec_playing().spec_keys(),
                        clock,
                    );
                    let s = final(self).spec_playing().spec_get(idx).unwrap();
                    &&& final(self).spec_curr_slice_idx() == idx
                    &&& final(self).spec_curr_slice() == (Slice {
                        cursor: (clock - idx) as usize,
                        ..s
                    })
                })
            }),
            old(self).spec_local_buffer() is None ==> ({
                &&& final(self).spec_playing() == old(self).spec_playing()
                &&& final(self).spec_curr_slice_idx() == old(self).spec_curr_slice_idx()
                &&& final(self).spec_curr_slice() == old(self).spec_curr_slice()
                &&& final(self).spec_crossfade() == old(self).spec_crossfade()
            }),
            (old(self).spec_next_transform() == Some(TransformType::Reset) && old(self).spec_local_buffer() is Some) ==> ({
                &&& final(self).spec_playing().spec_keys() == old(self).spec_orig().spec_keys()
                &&& final(self).spec_playing().spec_vals() == old(self).spec_orig().spec_vals()
            }),
            (old(self).spec_next_transform() == Some(TransformType::RandSwap) && old(self).spec_local_buffer() is Some) ==> ({
                &&& final(self).spec_playing().spec_keys() == old(self).spec_playing().spec_keys()
                &&& final(self).spec_playing().spec_vals().len() == old(self).spec_playing().spec_vals().len()
                &&& (forall|i: int|
                    0 <= i < final(self).spec_playing().spec_vals().len() ==> (#[trigger] final(self).spec_playing().spec_vals()[i]).spec_len() == old(self).spec_playing().spec_vals()[i].spec_len())
            }),
            ({
                forall|quant: usize, slice_index: usize|
                    (old(self).spec_next_transform() == Some(
                        TransformType::QuantRepeat { quant, slice_index },
                    ) && old(self).spec_local_buffer() is Some) ==> {
                        let b = old(self).spec_local_buffer().unwrap();
                        let step = spec_quant_step(b.spec_tempo(), quant);
                        let applied = quant >= 1 && 2 <= step <= SLICE_LEN_MAX && old(self).spec_playing().spec_contains_key(slice_index);
                        &&& (!applied ==> final(self).spec_playing().spec_keys() == old(self).spec_playing().spec_keys() && final(self).spec_playing().spec_vals()
                            == old(self).spec_playing().spec_vals())
                        &&& (applied ==> (forall|i: int|
                            0 <= i < final(self).spec_playing().spec_keys().len()
                                ==> #[trigger] final(self).spec_playing().spec_keys()[i] == i
                                * step))
                    }
            }),
    {
        let nt = match self.next_transform {
            None => {
                return ;
            },
            Some(t) => t,
        };
        self.fill_crossfade_buffer();
        if self.local_buffer.is_some() {
            match nt {
                TransformType::Reset => {
                    self.do_reset();
                },
                TransformType::RandSwap => {
                    self.do_rand_swap();
                },
                TransformType::QuantRepeat { quant, slice_index } => {
                    self.do_quant_repeat(quant, slice_index);
                },
            }
            self.adjust_current_slice();
        }
        self.next_transform = None;
    }

    /// Restores the original slice order: the playing map becomes a copy
    /// of the original map.
    pub fn do_reset(&mut self)
        requires
            old(self).wf(),
            old(self).spec_local_buffer() is Some,
        ensures
            final(self).wf(),
            final(self).spec_ticks() == old(self).spec_ticks(),
            final(self).spec_global_tempo() == old(self).spec_global_tempo(),
            final(self).spec_frames_since_sync() == old(self).spec_frames_since_sync(),
            final(self).spec_local_buffer() == old(self).spec_local_buffer(),
            final(self).spec_positions_mode() == old(self).spec_positions_mode(),
            final(self).spec_orig() == old(self).spec_orig(),
            final(self).spec_next_transform() == old(self).spec_next_transform(),
            final(self).spec_curr_slice() == old(self).spec_curr_slice(),
            final(self).spec_curr_slice_idx() == old(self).spec_curr_slice_idx(),
            final(self).spec_crossfade() == old(self).spec_crossfade(),
            final(self).spec_playing().spec_keys() == old(self).spec_orig().spec_keys(),
            final(self).spec_playing().spec_vals() == old(self).spec_orig().spec_vals(),
    {
        let orig_ref = &self.slices_orig;
        self.slices_playing.copy_from(orig_ref);
    }

    /// Swaps the playing slices at random while keeping the key order and
    /// every slot's length; ignored when the playing keys are no longer
    /// all original keys.
    pub fn do_rand_swap(&mut self)
        requires
            old(self).wf(),
            old(self).spec_local_buffer() is Some,
        ensures
            final(self).wf(),
            final(self).spec_ticks() == old(self).spec_ticks(),
            final(self).spec_global_tempo() == old(self).spec_global_tempo(),
            final(self).spec_frames_since_sync() == old(self).spec_frames_since_sync(),
            final(self).spec_local_buffer() == old(self).spec_local_buffer(),
            final(self).spec_positions_mode() == old(self).spec_positions_mode(),
            final(self).spec_orig() == old(self).spec_orig(),
            final(self).spec_next_transform() == old(self).spec_next_transform(),
            final(self).spec_curr_slice() == old(self).spec_curr_slice(),
            final(self).spec_curr_slice_idx() == old(self).spec_curr_slice_idx(),
            final(self).spec_crossfade() == old(self).spec_crossfade(),
            final(self).spec_playing().spec_keys() == old(self).spec_playing().spec_keys(),
            final(self).spec_playing().spec_vals().len() == old(self).spec_playing().spec_vals().len(),
            forall|i: int|
                0 <= i < final(self).spec_playing().spec_vals().len() ==> (#[trigger] final(self).spec_playing().spec_vals()[i]).spec_len()
                    == old(self).spec_playing().spec_vals()[i].spec_len(),
    {
        if self.slices_playing.keys_subset_of(&self.slices_orig) {
            let orig_ref = &self.slices_orig;
            self.slices_playing.rand_swap(orig_ref);
        }
    }

    /// Rebuilds the playing map as one slice repeated over a grid of one
    /// `quant`-th of a bar, ignoring requests with a zero quantization, a
    /// grid finer than two samples, or a missing slice.
    fn do_quant_repeat(&mut self, quant: usize, slice_index: usize)
        requires
            old(self).wf(),
            old(self).spec_local_buffer() is Some,
        ensures
            final(self).wf(),
            final(self).spec_ticks() == old(self).spec_ticks(),
            final(self).spec_global_tempo() == old(self).spec_global_tempo(),
            final(self).spec_frames_since_sync() == old(self).spec_frames_since_sync(),
            final(self).spec_local_buffer() == old(self).spec_local_buffer(),
            final(self).spec_positions_mode() == old(self).spec_positions_mode(),
            final(self).spec_orig() == old(self).spec_orig(),
            final(self).spec_next_transform() == old(self).spec_next_transform(),
            final(self).spec_curr_slice() == old(self).spec_curr_slice(),
            final(self).spec_curr_slice_idx() == old(self).spec_curr_slice_idx(),
            final(self).spec_crossfade() == old(self).spec_crossfade(),
            final(self).spec_playing().spec_keys().len() >= 1,
            final(self).spec_playing().spec_keys()[0] == 0,
            ({
                let b = old(self).spec_local_buffer().unwrap();
                let step = spec_quant_step(b.spec_tempo(), quant);
                let blen = b.spec_frames().len();
                let applied = quant >= 1 && 2 <= step <= SLICE_LEN_MAX && old(self).spec_playing().spec_contains_key(slice_index);
                &&& (!applied ==> final(self).spec_playing().spec_keys() == old(self).spec_playing().spec_keys() && final(self).spec_playing().spec_vals() == old(self).spec_playing().spec_vals())
                &&& (applied ==> ({
                    let t = old(self).spec_playing().spec_get(slice_index).unwrap();
                    let n = final(self).spec_playing().spec_keys().len();
                    &&& n == (blen + step - 1) / step
                    &&& (forall|i: int|
                        0 <= i < n ==> #[trigger] final(self).spec_playing().spec_keys()[i] == i
                            * step)
                    &&& (forall|i: int|
                        0 <= i < n ==> #[trigger] final(self).spec_playing().spec_vals()[i] == (
                        Slice {
                            id: i as usize,
                            start: t.start,
                            end: (t.start + step - 1) as usize,
                            cursor: 0,
                            reverse: t.reverse,
                        }))
                    &&& (n - 1) * step < blen <= n * step
                }))
            }),
    {
        let b_tempo = match &self.local_buffer {
            Some(b) => b.original_tempo(),
            None => {
                return ;
            },
        };
        let len = match &self.local_buffer {
            Some(b) => b.frames_len(),
            None => {
                return ;
            },
        };
        if quant < 1 {
            return ;
        }
        let bar = clock::bar_samples(b_tempo);
        proof {
            assert(clock::spec_beat_samples(b_tempo as int) <= 2_646_000) by (nonlinear_arith)
                requires
                    b_tempo >= 1000 && clock::spec_beat_samples(b_tempo as int) == 2_646_000_000int
                        / (b_tempo as int),
            ;
            assert(bar as int / quant as int <= bar) by (nonlinear_arith)
                requires quant >= 1 && bar >= 0;
        }
        let quant_samples = (bar / quant as u64) as usize;
        if quant_samples < 2 || quant_samples > SLICE_LEN_MAX {
            return ;
        }
        if self.slices_playing.get_by_ref(&slice_index).is_none() {
            return ;
        }
        proof {
            assert(quant_samples as int == spec_quant_step(b_tempo, quant));
        }
        self.slices_playing.quant_repeat(quant_samples, slice_index, len);
        proof {
            assert(self.spec_playing().spec_keys()[0] == 0 * (quant_samples as int));
        }
    }
    /// One emission step as a relation between the state before, the
    /// state after and the output — everything `next_frame` guarantees.
    /// A pending random swap makes the step nondeterministic, so this is
    /// a relation rather than a function; every other case is pinned.
    pub open spec fn spec_step_rel(pre: SliceSeq, post: SliceSeq, r: SlicedOut) -> bool {
        &&& post.wf()
        &&& post.spec_next_transform() is None
        &&& (r.new is Some) == (pre.spec_local_buffer() is Some)
        &&& post.spec_local_buffer() == pre.spec_local_buffer()
        &&& post.spec_positions_mode() == pre.spec_positions_mode()
        &&& post.spec_orig() == pre.spec_orig()
        &&& post.spec_ticks() == pre.spec_ticks()
        &&& post.spec_global_tempo() == pre.spec_global_tempo()
        &&& post.spec_frames_since_sync() == if pre.spec_frames_since_sync() < FRAMES_SYNC_SAT {
            pre.spec_frames_since_sync() + 1
        } else {
            pre.spec_frames_since_sync() as int
        }
        &&& (pre.spec_local_buffer() is None ==> ({
            &&& r.old is None
            &&& post.spec_playing() == pre.spec_playing()
            &&& post.spec_curr_slice_idx() == pre.spec_curr_slice_idx()
            &&& post.spec_curr_slice() == pre.spec_curr_slice()
            &&& post.spec_crossfade() == pre.spec_crossfade()
        }))
        &&& ((pre.spec_local_buffer() is Some && pre.spec_next_transform() is None) ==> ({
            let b = pre.spec_local_buffer().unwrap();
            let counter = if pre.spec_frames_since_sync() < FRAMES_SYNC_SAT {
                pre.spec_frames_since_sync() + 1
            } else {
                pre.spec_frames_since_sync() as int
            };
            let clock = pre.spec_clock_after_frames(counter);
            let idx = spec_max_key_at_or_below(pre.spec_playing().spec_keys(), clock);
            let cur0 = if idx == pre.spec_curr_slice_idx() {
                pre.spec_curr_slice()
            } else {
                pre.spec_playing().spec_get(idx).unwrap()
            };
            let stepped = spec_slice_step(
                cur0,
                b.spec_frames(),
                pre.spec_global_tempo() as int,
                b.spec_tempo() as int,
            );
            &&& post.spec_playing() == pre.spec_playing()
            &&& post.spec_curr_slice_idx() == idx
            &&& post.spec_curr_slice() == stepped.0
            &&& r.new == Some(stepped.1)
            &&& (pre.spec_crossfade().len() > 0 ==> r.old == Some(
                CrossfadeOut {
                    frame: pre.spec_crossfade()[0],
                    t: (CROSSFADE_CAPACITY - pre.spec_crossfade().len()) as u64,
                },
            ) && post.spec_crossfade() == pre.spec_crossfade().subrange(
                1,
                pre.spec_crossfade().len() as int,
            ))
            &&& (pre.spec_crossfade().len() == 0 ==> r.old is None && post.spec_crossfade()
                == pre.spec_crossfade())
        }))
        &&& ((pre.spec_local_buffer() is Some && pre.spec_next_transform() is Some) ==> ({
            let b = pre.spec_local_buffer().unwrap();
            let clock = post.spec_local_clock();
            let idx = spec_max_key_at_or_below(post.spec_playing().spec_keys(), clock);
            let s = post.spec_playing().spec_get(idx).unwrap();
            let adjusted = Slice { cursor: (clock - idx) as usize, ..s };
            let stepped = spec_slice_step(
                adjusted,
                b.spec_frames(),
                pre.spec_global_tempo() as int,
                b.spec_tempo() as int,
            );
            let filled = pre.spec_crossfade() + spec_slice_trace(
                pre.spec_curr_slice(),
                b.spec_frames(),
                pre.spec_global_tempo() as int,
                b.spec_tempo() as int,
                (CROSSFADE_CAPACITY - pre.spec_crossfade().len()) as nat,
            );
            &&& post.spec_curr_slice_idx() == idx
            &&& post.spec_curr_slice() == stepped.0
            &&& r.new == Some(stepped.1)
            &&& (filled.len() > 0 ==> r.old == Some(
                CrossfadeOut { frame: filled[0], t: (CROSSFADE_CAPACITY - filled.len()) as u64 },
            ) && post.spec_crossfade() == filled.subrange(1, filled.len() as int))
            &&& (filled.len() == 0 ==> r.old is None && post.spec_crossfade() == filled)
        }))
    }

    /// A run of emission steps chained state to state, one per output
    /// frame, in order.
    pub open spec fn spec_seq_chain(states: Seq<SliceSeq>, outs: Seq<SlicedOut>) -> bool {
        &&& states.len() == outs.len() + 1
        &&& forall|i: int|
            0 <= i < outs.len() ==> SliceSeq::spec_step_rel(
                #[trigger] states[i],
                states[i + 1],
                outs[i],
            )
    }

    /// Emits one frame: the inter-tick clock advances, a pending
    /// transform is applied, the current slice follows the clock, and the
    /// slice yields its next planned frame; while the crossfade queue
    /// drains, its front frame comes along to be mixed against the new
    /// one. Without a buffer the output is silence.
    #[verifier::rlimit(100)]
    #[verifier::spinoff_prover]
    pub fn next_frame(&mut self) -> (r: SlicedOut)
        requires
            old(self).wf(),
        ensures
            final(self).wf(),
            SliceSeq::spec_step_rel(*old(self), *final(self), r),
    {
        self.new_frame();
        self.apply_transform();
        self.update_curr_slice();

        let tempo = self.global_tempo;
        let local = match &self.local_buffer {
            None => {
                return SlicedOut { new: None, old: None };
            },
            Some(b) => b,
        };
        let frames = local.frames();
        let mbpm = local.original_tempo();
        let pf = self.curr_slice.next_frame(frames, tempo, mbpm);

        let old_out = if self.crossfade.len() > 0 {
            let t = (CROSSFADE_CAPACITY - self.crossfade.len()) as u64;
            let f = self.crossfade.dequeue();
            Some(CrossfadeOut { frame: f, t })
        } else {
            None
        };
        SlicedOut { new: Some(pf), old: old_out }
    }
}

} // verus!