use vstd::prelude::*;

use crate::clock;
use crate::frame::Frame;
use crate::positions::{self, PositionsMode};
use crate::slice::SLICE_START_MAX;

verus! {

/// Largest admitted beat count of a loaded phrase.
pub const NUM_BEATS_MAX: usize = 0x100_0000;

/// The divisor of a bar table: `beats/4` bars of `divisions` slots,
/// clamped into `[1, len]` so the table stays well formed.
pub open spec fn spec_bar_divisor(len: usize, beats: usize, divisions: usize) -> int {
    let raw = (beats as int / 4) * divisions;
    if raw < 1 {
        1
    } else if raw > len {
        len as int
    } else {
        raw
    }
}

/// The bar table itself.
pub open spec fn spec_bar_table(len: usize, beats: usize, divisions: usize) -> Seq<usize> {
    positions::spec_division_table(len, spec_bar_divisor(len, beats, divisions))
}

/// The quantization grid of a phrase: a sixteenth of a beat in frames,
/// kept at least one frame.
pub open spec fn spec_onset_grid(len: usize, beats: usize) -> usize {
    let raw = len as int / (16 * beats as int);
    if raw < 1 {
        1usize
    } else {
        raw as usize
    }
}

/// The quantized-onset table: the cleaned onsets snapped to the grid and
/// cleaned again.
pub open spec fn spec_quantized_table(detected: Seq<usize>, len: usize, beats: usize) -> Seq<
    usize,
> {
    let clean = positions::spec_sanitized(detected, len);
    positions::spec_sanitized(
        positions::spec_quantized(clean, spec_onset_grid(len, beats)),
        len,
    )
}

/// The two onset tables a load produces: the cleaned detections and their
/// quantization when at least one detection survives cleaning, the
/// eight-per-bar division otherwise.
pub open spec fn spec_onset_tables(detected: Seq<usize>, len: usize, beats: usize) -> (
    Seq<usize>,
    Seq<usize>,
) {
    let clean = positions::spec_sanitized(detected, len);
    if clean.len() > 2 {
        (clean, spec_quantized_table(detected, len, beats))
    } else {
        (spec_bar_table(len, beats, 8), spec_bar_table(len, beats, 8))
    }
}

/// The five precomputed slice-boundary tables of a buffer, one per
/// `PositionsMode`.
#[derive(Debug, Clone)]
pub struct PositionsTable {
    /// Detected onsets.
    pub onset: Vec<usize>,
    /// Detected onsets snapped to a sixteenth-of-a-beat grid.
    pub qonset: Vec<usize>,
    /// Four divisions per bar.
    pub bar4: Vec<usize>,
    /// Eight divisions per bar.
    pub bar8: Vec<usize>,
    /// Sixteen divisions per bar.
    pub bar16: Vec<usize>,
}

impl PositionsTable {
    /// The table of one mode.
    pub open spec fn spec_table(self, mode: PositionsMode) -> Seq<usize> {
        match mode {
            PositionsMode::OnsetMode => self.onset@,
            PositionsMode::QonsetMode => self.qonset@,
            PositionsMode::Bar4Mode => self.bar4@,
            PositionsMode::Bar8Mode => self.bar8@,
            PositionsMode::Bar16Mode => self.bar16@,
        }
    }

    /// Every mode's table is a well-formed positions table over `len`.
    pub open spec fn all_wf(self, len: nat) -> bool {
        forall|mode: PositionsMode| positions::positions_wf(#[trigger] self.spec_table(mode), len)
    }
}

/// An audio phrase after analysis: the frames, the tempo it was recorded
/// at, its beat count, and the precomputed slice-boundary tables. The
/// buffer never changes once loaded; generators keep local copies.
#[derive(Debug, Clone)]
pub struct SmartBuffer {
    file_name: String,
    frames: Vec<Frame>,
    original_tempo: u64,
    num_beats: usize,
    positions: PositionsTable,
}

impl SmartBuffer {
    /// The stored frames.
    pub closed spec fn spec_frames(self) -> Seq<Frame> {
        self.frames@
    }

    /// Name of the source file inside its bank.
    pub closed spec fn spec_file_name(self) -> Seq<char> {
        self.file_name@
    }

    /// Original tempo in milli-BPM.
    pub closed spec fn spec_tempo(self) -> u64 {
        self.original_tempo
    }

    /// Beats in the phrase.
    pub closed spec fn spec_num_beats(self) -> usize {
        self.num_beats
    }

    /// A positions table by mode.
    pub closed spec fn spec_positions(self, mode: PositionsMode) -> Seq<usize> {
        self.positions.spec_table(mode)
    }

    /// The tempo and beat count are always inside the engine's arithmetic
    /// bounds, loaded or not.
    pub open spec fn fields_wf(self) -> bool {
        &&& clock::tempo_wf(self.spec_tempo())
        &&& 1 <= self.spec_num_beats() <= NUM_BEATS_MAX
        &&& self.spec_frames().len() <= SLICE_START_MAX
    }

    /// Observational equality: same frames, name, tempo, beat count, and
    /// positions table for every mode.
    pub open spec fn obs_eq(self, o: SmartBuffer) -> bool {
        &&& self.spec_frames() == o.spec_frames()
        &&& self.spec_file_name() == o.spec_file_name()
        &&& self.spec_tempo() == o.spec_tempo()
        &&& self.spec_num_beats() == o.spec_num_beats()
        &&& forall|mode: PositionsMode| #[trigger] self.spec_positions(mode) == o.spec_positions(
            mode,
        )
    }

    /// Every positions table is well formed over `len` frames.
    pub open spec fn tables_wf(self, len: nat) -> bool {
        forall|mode: PositionsMode|
            positions::positions_wf(#[trigger] self.spec_positions(mode), len)
    }

    /// A loaded buffer: at least one frame, bounded fields, and every
    /// positions table well formed over the frame count — each starts at
    /// 0, ends at the frame count, and increases strictly.
    pub open spec fn loaded_wf(self) -> bool {
        &&& self.fields_wf()
        &&& self.spec_frames().len() >= 1
        &&& self.tables_wf(self.spec_frames().len() as nat)
    }

    /// An empty buffer: no frames, default tempo of 120 beats per minute,
    /// four beats, empty tables.
    pub fn new_empty() -> (r: SmartBuffer)
        ensures
            r.spec_frames().len() == 0,
            r.spec_file_name().len() == 0,
            r.spec_tempo() == 120_000,
            r.spec_num_beats() == 4,
            r.fields_wf(),
            forall|mode: PositionsMode| (#[trigger] r.spec_positions(mode)).len() == 0,
    {
        SmartBuffer {
            file_name: String::new(),
            frames: Vec::new(),
            original_tempo: 120_000,
            num_beats: 4,
            positions: PositionsTable {
                onset: Vec::new(),
                qonset: Vec::new(),
                bar4: Vec::new(),
                bar8: Vec::new(),
                bar16: Vec::new(),
            },
        }
    }

    /// Name of the source file inside its bank.
    pub fn file_name(&self) -> (r: &String)
        ensures
            r@ == self.spec_file_name(),
    {
        &self.file_name
    }

    /// Number of frames.
    pub fn frames_len(&self) -> (r: usize)
        ensures
            r == self.spec_frames().len(),
    {
        self.frames.len()
    }

    /// The stored frames.
    pub fn frames(&self) -> (r: &Vec<Frame>)
        ensures
            r@ == self.spec_frames(),
    {
        &self.frames
    }

    /// Original tempo in milli-BPM.
    pub fn original_tempo(&self) -> (r: u64)
        ensures
            r == self.spec_tempo(),
    {
        self.original_tempo
    }

    /// Beats in the phrase.
    pub fn num_beats(&self) -> (r: usize)
        ensures
            r == self.spec_num_beats(),
    {
        self.num_beats
    }

    /// The positions table of a mode.
    pub fn positions(&self, mode: PositionsMode) -> (r: &Vec<usize>)
        ensures
            r@ == self.spec_positions(mode),
    {
        match mode {
            PositionsMode::OnsetMode => &self.positions.onset,
            PositionsMode::QonsetMode => &self.positions.qonset,
            PositionsMode::Bar4Mode => &self.positions.bar4,
            PositionsMode::Bar8Mode => &self.positions.bar8,
            PositionsMode::Bar16Mode => &self.positions.bar16,
        }
    }

    /// Checks at run time that the buffer is loaded and well formed:
    /// audio present, bounded fields, every positions table well formed.
    #[verifier::rlimit(100)]
    #[verifier::spinoff_prover]
    pub fn check_loaded(&self) -> (r: bool)
        ensures
            r == self.loaded_wf(),
    {
        let len = self.frames.len();
        if len < 1 || len > SLICE_START_MAX {
            return false;
        }
        if self.original_tempo < clock::MBPM_MIN || self.original_tempo > clock::MBPM_MAX {
            return false;
        }
        if self.num_beats < 1 || self.num_beats > NUM_BEATS_MAX {
            return false;
        }
        let ok = check_table(&self.positions.onset, len) && check_table(&self.positions.qonset, len)
            && check_table(&self.positions.bar4, len) && check_table(&self.positions.bar8, len)
            && check_table(&self.positions.bar16, len);
        proof {
            if ok {
                assert forall|mode: PositionsMode|
                    positions::positions_wf(#[trigger] self.spec_positions(mode), len as nat) by {
                    match mode {
                        PositionsMode::OnsetMode => {},
                        PositionsMode::QonsetMode => {},
                        PositionsMode::Bar4Mode => {},
                        PositionsMode::Bar8Mode => {},
                        PositionsMode::Bar16Mode => {},
                    }
                }
            } else {
                if self.loaded_wf() {
                    assert(positions::positions_wf(
                        self.spec_positions(PositionsMode::OnsetMode),
                        len as nat,
                    ));
                    assert(positions::positions_wf(
                        self.spec_positions(PositionsMode::QonsetMode),
                        len as nat,
                    ));
                    assert(positions::positions_wf(
                        self.spec_positions(PositionsMode::Bar4Mode),
                        len as nat,
                    ));
                    assert(positions::positions_wf(
                        self.spec_positions(PositionsMode::Bar8Mode),
                        len as nat,
                    ));
                    assert(positions::positions_wf(
                        self.spec_positions(PositionsMode::Bar16Mode),
                        len as nat,
                    ));
                }
            }
        }
        ok
    }

    /// Copies another buffer into this one, reusing allocations where it
    /// can. Afterwards the two buffers observably agree: same frames,
    /// same name, same tempo, same beat count, and the same positions
    /// table for every mode — a copy is indistinguishable from a clone.
    pub fn copy_from(&mut self, from: &SmartBuffer)
        ensures
            final(self).spec_frames() == from.spec_frames(),
            final(self).spec_file_name() == from.spec_file_name(),
            final(self).spec_tempo() == from.spec_tempo(),
            final(self).spec_num_beats() == from.spec_num_beats(),
            forall|mode: PositionsMode| #[trigger]
                final(self).spec_positions(mode) == from.spec_positions(mode),
    {
        copy_frames(&mut self.frames, &from.frames);
        self.file_name = from.file_name.clone();
        self.num_beats = from.num_beats;
        self.original_tempo = from.original_tempo;
        copy_indices(&mut self.positions.onset, &from.positions.onset);
        copy_indices(&mut self.positions.qonset, &from.positions.qonset);
        copy_indices(&mut self.positions.bar4, &from.positions.bar4);
        copy_indices(&mut self.positions.bar8, &from.positions.bar8);
        copy_indices(&mut self.positions.bar16, &from.positions.bar16);
        proof {
            assert forall|mode: PositionsMode| #[trigger]
                self.spec_positions(mode) == from.spec_positions(mode) by {
            }
        }
    }

    /// Installs decoded and analyzed audio: the frames, the resolved
    /// tempo and beat count, and slice tables built from the detected
    /// onsets. This is the pure tail of loading a file; decoding and
    /// onset detection happen outside and hand in plain values. The
    /// buffer comes out loaded and well formed.
    pub fn load_analysed(
        &mut self,
        file_name: String,
        frames: Vec<Frame>,
        original_tempo: u64,
        num_beats: usize,
        detected_onsets: &Vec<usize>,
    )
        requires
            1 <= frames@.len() <= SLICE_START_MAX,
            clock::tempo_wf(original_tempo),
            1 <= num_beats <= NUM_BEATS_MAX,
        ensures
            final(self).loaded_wf(),
            final(self).spec_frames() == frames@,
            final(self).spec_file_name() == file_name@,
            final(self).spec_tempo() == original_tempo,
            final(self).spec_num_beats() == num_beats,
            ({
                let len = frames@.len() as usize;
                let tables = spec_onset_tables(detected_onsets@, len, num_beats);
                &&& final(self).spec_positions(PositionsMode::OnsetMode) == tables.0
                &&& final(self).spec_positions(PositionsMode::QonsetMode) == tables.1
                &&& final(self).spec_positions(PositionsMode::Bar4Mode) == spec_bar_table(
                    len,
                    num_beats,
                    4,
                )
                &&& final(self).spec_positions(PositionsMode::Bar8Mode) == spec_bar_table(
                    len,
                    num_beats,
                    8,
                )
                &&& final(self).spec_positions(PositionsMode::Bar16Mode) == spec_bar_table(
                    len,
                    num_beats,
                    16,
                )
            }),
    {
        let len = frames.len();
        self.frames = frames;
        self.file_name = file_name;
        self.original_tempo = original_tempo;
        self.num_beats = num_beats;
        self.set_positions(len, num_beats, detected_onsets);
    }

    /// Rebuilds the five positions tables for a buffer of `len` frames
    /// with `beats` beats. Detected onsets fill the onset table and, on a
    /// sixteenth-of-a-beat grid, the quantized table; when fewer than one
    /// detection survives cleaning, both fall back to eight equal
    /// divisions per bar. Every resulting table is well formed.
    #[verifier::rlimit(50)]
    fn set_positions(&mut self, len: usize, beats: usize, detected_onsets: &Vec<usize>)
        requires
            1 <= len <= SLICE_START_MAX,
            1 <= beats <= NUM_BEATS_MAX,
        ensures
            final(self).tables_wf(len as nat),
            final(self).spec_frames() == old(self).spec_frames(),
            final(self).spec_file_name() == old(self).spec_file_name(),
            final(self).spec_tempo() == old(self).spec_tempo(),
            final(self).spec_num_beats() == old(self).spec_num_beats(),
            ({
                let tables = spec_onset_tables(detected_onsets@, len, beats);
                &&& final(self).spec_positions(PositionsMode::OnsetMode) == tables.0
                &&& final(self).spec_positions(PositionsMode::QonsetMode) == tables.1
                &&& final(self).spec_positions(PositionsMode::Bar4Mode) == spec_bar_table(
                    len,
                    beats,
                    4,
                )
                &&& final(self).spec_positions(PositionsMode::Bar8Mode) == spec_bar_table(
                    len,
                    beats,
                    8,
                )
                &&& final(self).spec_positions(PositionsMode::Bar16Mode) == spec_bar_table(
                    len,
                    beats,
                    16,
                )
            }),
    {
        let onset = positions::sanitize_onsets(detected_onsets, len);
        let (onset_table, qonset_table) = if onset.len() > 2 {
            let qonset = quantized_onsets(&onset, len, beats);
            (onset, qonset)
        } else {
            (bar_divisions(len, beats, 8), bar_divisions(len, beats, 8))
        };
        let table = PositionsTable {
            onset: onset_table,
            qonset: qonset_table,
            bar4: bar_divisions(len, beats, 4),
            bar8: bar_divisions(len, beats, 8),
            bar16: bar_divisions(len, beats, 16),
        };
        self.positions = table;
        proof {
            assert forall|mode: PositionsMode|
                positions::positions_wf(#[trigger] self.spec_positions(mode), len as nat) by {
                match mode {
                    PositionsMode::OnsetMode => {},
                    PositionsMode::QonsetMode => {},
                    PositionsMode::Bar4Mode => {},
                    PositionsMode::Bar8Mode => {},
                    PositionsMode::Bar16Mode => {},
                }
            }
        }
    }
}

/// Snaps a clean onset table to a sixteenth-of-a-beat grid and cleans the
/// result again, so the quantized table is well formed too.
#[verifier::rlimit(100)]
fn quantized_onsets(onset: &Vec<usize>, len: usize, beats: usize) -> (r: Vec<usize>)
    requires
        positions::positions_wf(onset@, len as nat),
        1 <= len <= SLICE_START_MAX,
        1 <= beats <= NUM_BEATS_MAX,
    ensures
        positions::positions_wf(r@, len as nat),
        r@ == positions::spec_sanitized(
            positions::spec_quantized(onset@, spec_onset_grid(len, beats)),
            len,
        ),
{
    // grid step of a sixteenth of a beat, kept at least one frame
    let grid_raw = len / (16 * beats);
    let grid = if grid_raw < 1 {
        1
    } else {
        grid_raw
    };
    proof {
        positions::lemma_positions_sorted(onset@, len as nat);
        assert forall|i: int|
            0 <= i < onset@.len() implies #[trigger] onset@[i] + grid <= usize::MAX by {
            assert(onset@[i] <= len);
        }
    }
    let quantized = positions::quantize_pos(onset, grid);
    proof {
        assert(quantized@ =~= positions::spec_quantized(onset@, spec_onset_grid(len, beats)));
    }
    positions::sanitize_onsets(&quantized, len)
}

/// Checks a positions table for well-formedness over `len` frames.
fn check_table(t: &Vec<usize>, len: usize) -> (r: bool)
    ensures
        r == positions::positions_wf(t@, len as nat),
{
    if t.len() < 2 {
        return false;
    }
    if t[0] != 0 {
        return false;
    }
    if t[t.len() - 1] != len {
        return false;
    }
    let mut i: usize = 0;
    while i < t.len() - 1
        invariant
            t@.len() >= 2,
            i <= t@.len() - 1,
            forall|j: int| 0 <= j < i ==> #[trigger] t@[j] < t@[j + 1],
        decreases t@.len() - 1 - i,
    {
        if t[i] >= t[i + 1] {
            return false;
        }
        i = i + 1;
    }
    true
}

/// Replaces the contents of a frame vector with a copy of another,
/// keeping the allocation.
fn copy_frames(dst: &mut Vec<Frame>, src: &Vec<Frame>)
    ensures
        final(dst)@ == src@,
{
    dst.clear();
    let mut i: usize = 0;
    while i < src.len()
        invariant
            i <= src@.len(),
            dst@ == src@.subrange(0, i as int),
        decreases src@.len() - i,
    {
        dst.push(src[i]);
        proof {
            assert(dst@ =~= src@.subrange(0, i + 1));
        }
        i = i + 1;
    }
    proof {
        assert(dst@ =~= src@);
    }
}

/// Replaces the contents of an index vector with a copy of another,
/// keeping the allocation.
fn copy_indices(dst: &mut Vec<usize>, src: &Vec<usize>)
    ensures
        final(dst)@ == src@,
{
    dst.clear();
    let mut i: usize = 0;
    while i < src.len()
        invariant
            i <= src@.len(),
            dst@ == src@.subrange(0, i as int),
        decreases src@.len() - i,
    {
        dst.push(src[i]);
        proof {
            assert(dst@ =~= src@.subrange(0, i + 1));
        }
        i = i + 1;
    }
    proof {
        assert(dst@ =~= src@);
    }
}

/// The equally spaced positions table of `divisions` slots per bar over
/// `beats/4` bars, the divisor clamped into `[1, len]` so that the table
/// is always well formed.
pub fn bar_divisions(len: usize, beats: usize, divisions: usize) -> (r: Vec<usize>)
    requires
        1 <= len <= SLICE_START_MAX,
        1 <= beats <= NUM_BEATS_MAX,
        1 <= divisions <= 16,
    ensures
        positions::positions_wf(r@, len as nat),
        r@ == spec_bar_table(len, beats, divisions),
{
    proof {
        assert((beats / 4) * divisions <= NUM_BEATS_MAX * 16) by (nonlinear_arith)
            requires beats <= NUM_BEATS_MAX && divisions <= 16 && beats >= 0;
    }
    let divisor_raw: usize = (beats / 4) * divisions;
    let divisor = if divisor_raw < 1 {
        1
    } else if divisor_raw > len {
        len
    } else {
        divisor_raw
    };
    let r = positions::slice_onsets(len, divisor);
    proof {
        assert(divisor as int == spec_bar_divisor(len, beats, divisions));
        assert(r@ =~= spec_bar_table(len, beats, divisions));
    }
    r
}

} // verus!
