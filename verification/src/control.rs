use vstd::prelude::*;

use crate::midi::MidiTime;
use crate::seq::TransformType;

verus! {

/// One whole unit of a control value, in micro-units. Control values are
/// fixed-point integers: a fader at 1.0 carries `UNIT`.
pub const UNIT: i64 = 1_000_000;

/// Largest magnitude a control value may carry.
pub const PARAM_MAX: i64 = 16_000_000;

/// Messages understood by the slicer generator.
#[derive(Debug, Clone, Copy, PartialEq, Eq, Structural)]
pub enum SlicerMessage {
    /// Apply a slice-sequence transform.
    Transform(TransformType),
}

/// Clock synchronization messages from the transport.
#[derive(Debug, Clone, Copy, PartialEq, Eq, Structural)]
pub enum SyncMessage {
    /// Transport started.
    Start,
    /// Transport stopped.
    Stop,
    /// One clock tick, carrying its timecode.
    Tick(u64),
}

/// Transport state shipped with every playback message.
#[derive(Debug, Clone, Copy, PartialEq, Eq, Structural)]
pub struct PlaybackMessage {
    /// What the transport did.
    pub sync: SyncMessage,
    /// The transport's clock state.
    pub time: MidiTime,
}

/// The control-plane message: transport sync fans out to every track,
/// the rest dispatch to one track by number. Values are micro-units.
#[derive(Debug, Clone, Copy, PartialEq, Eq, Structural)]
pub enum ControlMessage {
    /// Transport playback state, for every track.
    Playback(PlaybackMessage),
    /// Track volume, `0..=1.2*UNIT` after remapping.
    TrackVolume {
        /// Source timecode.
        tcode: u64,
        /// Volume in micro-units.
        val: i64,
        /// Target track.
        track_num: usize,
    },
    /// Track pan, `-UNIT..=UNIT` after remapping.
    TrackPan {
        /// Source timecode.
        tcode: u64,
        /// Pan in micro-units.
        val: i64,
        /// Target track.
        track_num: usize,
    },
    /// Continuous sample selector inside the track's bank.
    TrackSampleSelect {
        /// Source timecode.
        tcode: u64,
        /// Selector position in micro-units.
        val: i64,
        /// Target track.
        track_num: usize,
    },
    /// Step to the next sample of the bank.
    TrackNextSample {
        /// Source timecode.
        tcode: u64,
        /// Target track.
        track_num: usize,
    },
    /// Step to the previous sample of the bank.
    TrackPrevSample {
        /// Source timecode.
        tcode: u64,
        /// Target track.
        track_num: usize,
    },
    /// Change the track's loop divider.
    TrackLoopDiv {
        /// Source timecode.
        tcode: u64,
        /// The new divider.
        val: u64,
        /// Target track.
        track_num: usize,
    },
    /// A slicer-specific message for one track.
    Slicer {
        /// Source timecode.
        tcode: u64,
        /// Target track.
        track_num: usize,
        /// The slicer message.
        message: SlicerMessage,
    },
}

impl ControlMessage {
    /// Rescales a value arriving from a MIDI controller — the raw
    /// `0..UNIT` fader domain — into the control's own domain: volume
    /// stretches to `0..1.2*UNIT`, pan spreads to `-UNIT..UNIT`. Only
    /// those two message kinds carry a MIDI-remappable value.
    pub fn remap_from_midi(&mut self)
        requires
            match *old(self) {
                ControlMessage::TrackVolume { val, .. } => 0 <= val <= UNIT,
                ControlMessage::TrackPan { val, .. } => 0 <= val <= UNIT,
                _ => false,
            },
        ensures
            match *old(self) {
                ControlMessage::TrackVolume { tcode, val, track_num } => *final(self)
                    == (ControlMessage::TrackVolume {
                    tcode,
                    val: (val * 6 / 5) as i64,
                    track_num,
                }),
                ControlMessage::TrackPan { tcode, val, track_num } => *final(self)
                    == (ControlMessage::TrackPan { tcode, val: (2 * val - UNIT) as i64, track_num }),
                _ => false,
            },
    {
        match self {
            ControlMessage::TrackVolume { val, .. } => {
                *val = *val * 6 / 5;
            },
            ControlMessage::TrackPan { val, .. } => {
                *val = 2 * *val - UNIT;
            },
            _ => {},
        }
    }
}

/// A value's direction of travel, carrying the newest value.
#[derive(Debug, Clone, Copy, PartialEq, Eq, Structural)]
pub enum Direction {
    /// The value rose.
    Up(i64),
    /// The value fell.
    Down(i64),
    /// The value stayed.
    Stable(i64),
}

/// Remembers the last two values of a control to tell which way it
/// moved.
#[derive(Debug, Clone, Copy, PartialEq, Eq, Structural)]
pub struct DirectionalParam {
    /// The value before the newest one.
    pub prev_val: i64,
    /// The newest value.
    pub next_val: i64,
}

impl DirectionalParam {
    /// A directional parameter from its two initial values.
    pub fn new(pv: i64, nv: i64) -> (r: DirectionalParam)
        ensures
            r == (DirectionalParam { prev_val: pv, next_val: nv }),
    {
        DirectionalParam { prev_val: pv, next_val: nv }
    }

    /// Accepts a new value; the old newest value becomes the previous
    /// one.
    pub fn new_value(&mut self, v: i64)
        ensures
            *final(self) == (DirectionalParam { prev_val: old(self).next_val, next_val: v }),
    {
        self.prev_val = self.next_val;
        self.next_val = v;
    }

    /// Which way the value moved: up, down, or stable, with the newest
    /// value attached.
    pub fn get_param(&self) -> (r: Direction)
        ensures
            self.next_val > self.prev_val ==> r == Direction::Up(self.next_val),
            self.next_val < self.prev_val ==> r == Direction::Down(self.next_val),
            self.next_val == self.prev_val ==> r == Direction::Stable(self.next_val),
    {
        if self.next_val > self.prev_val {
            Direction::Up(self.next_val)
        } else if self.next_val < self.prev_val {
            Direction::Down(self.next_val)
        } else {
            Direction::Stable(self.next_val)
        }
    }
}

/// The value a smoothing ramp reads at position `t` of `len`: a linear
/// walk from `prev` to `next`, clamped to the endpoint past `len`.
pub open spec fn spec_smoothed(prev: int, next: int, t: int, len: int) -> int {
    if next >= prev {
        prev + (next - prev) * t / len
    } else {
        prev - (prev - next) * t / len
    }
}

/// Smooths a control value over a block: every read steps a linear ramp
/// from the previous to the newest value, so a jump spreads over `len`
/// reads instead of landing at once.
#[derive(Debug, Clone, Copy, PartialEq, Eq, Structural)]
pub struct SmoothParam {
    /// Ramp start.
    pub prev_val: i64,
    /// Ramp target.
    pub next_val: i64,
    /// Reads taken since the target arrived.
    pub t: usize,
}

impl SmoothParam {
    /// A smoothing parameter is workable when its values stay inside the
    /// fixed-point domain.
    pub open spec fn wf(self) -> bool {
        &&& -PARAM_MAX <= self.prev_val <= PARAM_MAX
        &&& -PARAM_MAX <= self.next_val <= PARAM_MAX
    }

    /// A fresh ramp between two values.
    pub fn new(pv: i64, nv: i64) -> (r: SmoothParam)
        requires
            -PARAM_MAX <= pv <= PARAM_MAX,
            -PARAM_MAX <= nv <= PARAM_MAX,
        ensures
            r == (SmoothParam { prev_val: pv, next_val: nv, t: 0 }),
            r.wf(),
    {
        SmoothParam { prev_val: pv, next_val: nv, t: 0 }
    }

    /// Accepts a new target: the ramp restarts from the old target.
    pub fn new_value(&mut self, v: i64)
        requires
            -PARAM_MAX <= v <= PARAM_MAX,
            old(self).wf(),
        ensures
            *final(self) == (SmoothParam { prev_val: old(self).next_val, next_val: v, t: 0 }),
            final(self).wf(),
    {
        self.prev_val = self.next_val;
        self.next_val = v;
        self.t = 0;
    }

    /// Reads the ramp at its current position over a block of `len`
    /// reads, then advances the position until the block is complete.
    pub fn get_param(&mut self, len: usize) -> (r: i64)
        requires
            old(self).wf(),
            1 <= len,
        ensures
            r == spec_smoothed(
                old(self).prev_val as int,
                old(self).next_val as int,
                if old(self).t <= len {
                    old(self).t as int
                } else {
                    len as int
                },
                len as int,
            ),
            final(self).prev_val == old(self).prev_val,
            final(self).next_val == old(self).next_val,
            final(self).t == if old(self).t < len {
                old(self).t + 1
            } else {
                old(self).t as int
            },
            final(self).wf(),
            -PARAM_MAX <= r <= PARAM_MAX,
    {
        let t = if self.t <= len {
            self.t
        } else {
            len
        };
        proof {
            lemma_smoothed_bounds(self.prev_val as int, self.next_val as int, t as int, len as int);
        }
        proof {
            let pv = self.prev_val as int;
            let nv = self.next_val as int;
            lemma_ramp_arith(pv, nv, t as int, len as int);
        }
        let smoothed = if self.next_val >= self.prev_val {
            let diff: i128 = self.next_val as i128 - self.prev_val as i128;
            let wide = diff * (t as i128) / (len as i128);
            self.prev_val + wide as i64
        } else {
            let diff: i128 = self.prev_val as i128 - self.next_val as i128;
            let wide = diff * (t as i128) / (len as i128);
            self.prev_val - wide as i64
        };
        if self.t < len {
            self.t = self.t + 1;
        }
        smoothed
    }
}

/// Bounds for computing a ramp value with machine integers: the scaled
/// difference stays inside the difference, the product inside a wide
/// word, and nothing goes negative.
proof fn lemma_ramp_arith(pv: int, nv: int, t: int, len: int)
    requires
        0 <= t <= len,
        1 <= len,
        -PARAM_MAX <= pv <= PARAM_MAX,
        -PARAM_MAX <= nv <= PARAM_MAX,
    ensures
        nv >= pv ==> 0 <= (nv - pv) * t / len <= nv - pv,
        nv < pv ==> 0 <= (pv - nv) * t / len <= pv - nv,
        nv >= pv ==> (nv - pv) * t <= 2 * (PARAM_MAX as int) * len,
        nv < pv ==> (pv - nv) * t <= 2 * (PARAM_MAX as int) * len,
        (nv - pv) * t >= -(2 * (PARAM_MAX as int) * len),
        (pv - nv) * t >= -(2 * (PARAM_MAX as int) * len),
{
    if nv >= pv {
        assert(0 <= (nv - pv) * t / len <= nv - pv && (nv - pv) * t <= 2 * (PARAM_MAX as int) * len
            && (nv - pv) * t >= 0) by (nonlinear_arith)
            requires 0 <= t <= len && 1 <= len && 0 <= nv - pv <= 2 * (PARAM_MAX as int);
        assert((pv - nv) * t >= -(2 * (PARAM_MAX as int) * len)) by (nonlinear_arith)
            requires 0 <= t <= len && 1 <= len && 0 <= nv - pv <= 2 * (PARAM_MAX as int);
    } else {
        assert(0 <= (pv - nv) * t / len <= pv - nv && (pv - nv) * t <= 2 * (PARAM_MAX as int) * len
            && (pv - nv) * t >= 0) by (nonlinear_arith)
            requires 0 <= t <= len && 1 <= len && 0 <= pv - nv <= 2 * (PARAM_MAX as int);
        assert((nv - pv) * t >= -(2 * (PARAM_MAX as int) * len)) by (nonlinear_arith)
            requires 0 <= t <= len && 1 <= len && 0 <= pv - nv <= 2 * (PARAM_MAX as int);
    }
}

/// The ramp stays between its two endpoints.
pub proof fn lemma_smoothed_bounds(prev: int, next: int, t: int, len: int)
    requires
        0 <= t <= len,
        1 <= len,
    ensures
        next >= prev ==> prev <= spec_smoothed(prev, next, t, len) <= next,
        next < prev ==> next <= spec_smoothed(prev, next, t, len) <= prev,
{
    if next >= prev {
        assert(0 <= (next - prev) * t / len <= next - prev) by (nonlinear_arith)
            requires 0 <= t <= len && 1 <= len && next - prev >= 0;
    } else {
        assert(0 <= (prev - next) * t / len <= prev - next) by (nonlinear_arith)
            requires 0 <= t <= len && 1 <= len && prev - next >= 0;
    }
}

/// Capacity of the merged control queue feeding the audio thread.
pub const CONTROL_QUEUE_CAPACITY: usize = 1024;

/// The fan-in point of the control plane: producers push decoded control
/// messages into one bounded queue, the audio thread drains it without
/// blocking. A push onto a full queue drops the message and counts the
/// drop — producers never block and never overflow the queue.
#[derive(Debug, Clone)]
pub struct ControlHub {
    queue: Vec<ControlMessage>,
    dropped: u64,
}

impl ControlHub {
    /// The queued messages, oldest first.
    pub closed spec fn view(self) -> Seq<ControlMessage> {
        self.queue@
    }

    /// Messages dropped against a full queue so far.
    pub closed spec fn spec_dropped(self) -> u64 {
        self.dropped
    }

    /// The queue never outgrows its capacity.
    pub open spec fn wf(self) -> bool {
        self.view().len() <= CONTROL_QUEUE_CAPACITY
    }

    /// An empty hub.
    pub fn new() -> (r: ControlHub)
        ensures
            r.wf(),
            r.view().len() == 0,
            r.spec_dropped() == 0,
    {
        ControlHub { queue: Vec::new(), dropped: 0 }
    }

    /// Messages waiting.
    pub fn len(&self) -> (r: usize)
        ensures
            r == self.view().len(),
    {
        self.queue.len()
    }

    /// Offers a message: accepted and queued while there is room, dropped
    /// and counted once the queue holds its full capacity. Never blocks,
    /// never grows past the capacity.
    pub fn push(&mut self, m: ControlMessage) -> (accepted: bool)
        requires
            old(self).wf(),
        ensures
            final(self).wf(),
            accepted == (old(self).view().len() < CONTROL_QUEUE_CAPACITY),
            accepted ==> final(self).view() == old(self).view().push(m) && final(self).spec_dropped() == old(self).spec_dropped(),
            !accepted ==> final(self).view() == old(self).view() && final(self).spec_dropped()
                == if old(self).spec_dropped() < u64::MAX {
                old(self).spec_dropped() + 1
            } else {
                old(self).spec_dropped() as int
            },
    {
        if self.queue.len() < CONTROL_QUEUE_CAPACITY {
            self.queue.push(m);
            true
        } else {
            if self.dropped < u64::MAX {
                self.dropped = self.dropped + 1;
            }
            false
        }
    }

    /// Takes the oldest waiting message, if any.
    pub fn pop(&mut self) -> (r: Option<ControlMessage>)
        requires
            old(self).wf(),
        ensures
            final(self).wf(),
            final(self).spec_dropped() == old(self).spec_dropped(),
            old(self).view().len() == 0 ==> r is None && *final(self) == *old(self),
            old(self).view().len() > 0 ==> r == Some(old(self).view()[0]) && final(self).view()
                == old(self).view().subrange(1, old(self).view().len() as int),
    {
        if self.queue.len() == 0 {
            None
        } else {
            Some(self.queue.remove(0))
        }
    }
}

} // verus!
