use vstd::prelude::*;

use crate::clock::TICKS_MAX;
use crate::config::MidiMap;
use crate::control::{ControlMessage, SyncMessage, UNIT};

verus! {

/// MIDI real-time status byte: transport start.
pub const MIDI_STATUS_START: u8 = 250;

/// MIDI real-time status byte: stop.
pub const MIDI_STATUS_STOP: u8 = 252;

/// MIDI real-time status byte: timing clock tick.
pub const MIDI_STATUS_TICK: u8 = 248;

/// The transport clock derived from MIDI timing: the rounded tempo, the
/// tick counter, and the previous tick's timecode the tempo is derived
/// from.
#[derive(Debug, Clone, Copy, PartialEq, Eq, Structural)]
pub struct MidiTime {
    /// Tempo in whole beats per minute, rounded.
    pub tempo: u64,
    /// Ticks since the transport started.
    pub ticks: u64,
    /// Timecode of the previous tick, milliseconds; zero before the
    /// first.
    pub last_timecode: u64,
}

impl MidiTime {
    /// A fresh clock at the default tempo.
    pub fn new() -> (r: MidiTime)
        ensures
            r == (MidiTime { tempo: 120, ticks: 0, last_timecode: 0 }),
    {
        MidiTime { tempo: 120, ticks: 0, last_timecode: 0 }
    }

    /// Rewinds the tick counter and forgets the previous timecode.
    pub fn restart(&mut self)
        ensures
            *final(self) == (MidiTime { ticks: 0, last_timecode: 0, ..*old(self) }),
    {
        self.ticks = 0;
        self.last_timecode = 0;
    }

    /// Registers one timing-clock tick. From the second tick on, the
    /// tempo is derived from the time between ticks: at 24 pulses per
    /// quarter note, `tempo = round(2_500_000 / delta)` for a delta in
    /// milliseconds; a non-advancing timecode leaves the tempo alone. The
    /// tick counter advances, saturating at the clock arithmetic's cap.
    pub fn tick(&mut self, tcode: u64)
        ensures
            final(self).last_timecode == tcode,
            final(self).tempo == if old(self).last_timecode == 0 || tcode <= old(self).last_timecode {
                old(self).tempo as int
            } else {
                (5_000_000 + (tcode - old(self).last_timecode)) as int / (2 * (tcode - old(self).last_timecode)) as int
            },
            final(self).ticks == if old(self).ticks < TICKS_MAX {
                old(self).ticks + 1
            } else {
                old(self).ticks as int
            },
    {
        if self.last_timecode == 0 {
            self.last_timecode = tcode;
        } else if tcode > self.last_timecode {
            let delta = tcode - self.last_timecode;
            if delta >= 0x4000_0000_0000_0000 {
                // a pause this long rounds to a tempo of zero
                proof {
                    assert((5_000_000 + delta as int) / (2 * delta as int) == 0)
                        by (nonlinear_arith)
                        requires delta >= 0x4000_0000_0000_0000;
                }
                self.tempo = 0;
            } else {
                self.tempo = (5_000_000 + delta) / (2 * delta);
            }
            self.last_timecode = tcode;
        } else {
            self.last_timecode = tcode;
        }
        if self.ticks < TICKS_MAX {
            self.ticks = self.ticks + 1;
        }
    }
}

/// Decodes a raw MIDI real-time status byte into a transport sync
/// message: start, stop, or a tick carrying the timecode; anything else
/// is dropped.
pub fn midi_sync_cb(tcode: u64, mid_data: &[u8]) -> (r: Option<SyncMessage>)
    requires
        mid_data@.len() >= 1,
    ensures
        r == if mid_data@[0] == MIDI_STATUS_START {
            Some(SyncMessage::Start)
        } else if mid_data@[0] == MIDI_STATUS_STOP {
            Some(SyncMessage::Stop)
        } else if mid_data@[0] == MIDI_STATUS_TICK {
            Some(SyncMessage::Tick(tcode))
        } else {
            Option::<SyncMessage>::None
        },
{
    if mid_data[0] == MIDI_STATUS_START {
        Some(SyncMessage::Start)
    } else if mid_data[0] == MIDI_STATUS_STOP {
        Some(SyncMessage::Stop)
    } else if mid_data[0] == MIDI_STATUS_TICK {
        Some(SyncMessage::Tick(tcode))
    } else {
        None
    }
}

/// The fader value of a seven-bit controller byte in micro-units:
/// `val / 128` of one unit.
pub open spec fn spec_cc_unit(cc_val: int) -> int {
    cc_val * UNIT / 128
}

/// Builds the control message for an incoming controller change: the
/// binding table maps the channel and controller number to a message
/// template, the template's value is replaced by the scaled controller
/// value — remapped into the control's own domain for volume and pan —
/// and its timecode by the incoming one. Controllers without a binding,
/// and bindings whose template cannot carry a controller value, yield
/// nothing.
pub fn map_cc(
    map: &MidiMap,
    channel: u8,
    cc_num: u8,
    cc_val: u8,
    tcode: u64,
) -> (r: Option<ControlMessage>)
    requires
        cc_val < 128,
    ensures
        match map.spec_lookup(channel, cc_num) {
            None => r is None,
            Some(template) => match template {
                ControlMessage::TrackVolume { track_num, .. } => r == Some(
                    ControlMessage::TrackVolume {
                        tcode,
                        val: (spec_cc_unit(cc_val as int) * 6 / 5) as i64,
                        track_num,
                    },
                ),
                ControlMessage::TrackPan { track_num, .. } => r == Some(
                    ControlMessage::TrackPan {
                        tcode,
                        val: (2 * spec_cc_unit(cc_val as int) - UNIT) as i64,
                        track_num,
                    },
                ),
                ControlMessage::TrackSampleSelect { track_num, .. } => r == Some(
                    ControlMessage::TrackSampleSelect {
                        tcode,
                        val: spec_cc_unit(cc_val as int) as i64,
                        track_num,
                    },
                ),
                _ => r is None,
            },
        },
{
    let template = match map.lookup(channel, cc_num) {
        None => {
            return None;
        },
        Some(t) => t,
    };
    let val_unit: i64 = (cc_val as i64) * UNIT / 128;
    proof {
        assert(0 <= (cc_val as int) * (UNIT as int) / 128 <= UNIT) by (nonlinear_arith)
            requires 0 <= cc_val < 128 && UNIT >= 1;
    }
    match template {
        ControlMessage::TrackVolume { track_num, .. } => {
            let mut m = ControlMessage::TrackVolume { tcode, val: val_unit, track_num };
            m.remap_from_midi();
            Some(m)
        },
        ControlMessage::TrackPan { track_num, .. } => {
            let mut m = ControlMessage::TrackPan { tcode, val: val_unit, track_num };
            m.remap_from_midi();
            Some(m)
        },
        ControlMessage::TrackSampleSelect { track_num, .. } => Some(
            ControlMessage::TrackSampleSelect { tcode, val: val_unit, track_num },
        ),
        _ => None,
    }
}

} // verus!
