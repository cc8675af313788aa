use vstd::prelude::*;

use crate::control::ControlMessage;

verus! {

/// The kind of generator a configured track runs, with the sample bank it
/// draws from.
#[derive(Debug, Clone, Copy, PartialEq, Eq, Structural)]
pub enum TrackType {
    /// A beat-sliced sequencer track.
    SlicerGen {
        /// Bank index the track is locked to.
        bank: usize,
    },
    /// A linear-interpolation repitch track.
    RePitchGen {
        /// Bank index the track is locked to.
        bank: usize,
    },
    /// A phase-vocoder time-stretch track.
    PVOCGen {
        /// Bank index the track is locked to.
        bank: usize,
    },
}

/// One controller binding: a MIDI channel and controller number mapped to
/// a message template whose value and timecode are filled in on receipt.
#[derive(Debug, Clone, Copy, PartialEq, Eq, Structural)]
pub struct CcBinding {
    /// MIDI channel number.
    pub channel: u8,
    /// Controller number.
    pub cc_num: u8,
    /// Message template to clone and fill.
    pub template: ControlMessage,
}

/// The controller map: an ordered list of bindings; the first binding for
/// a channel and controller wins.
#[derive(Debug, Clone)]
pub struct MidiMap {
    /// The bindings, in priority order.
    pub cc: Vec<CcBinding>,
}

impl MidiMap {
    /// Index of the first binding for the channel and controller, if any.
    pub open spec fn spec_lookup_index(self, channel: u8, cc_num: u8) -> Option<int> {
        self.spec_lookup_index_from(channel, cc_num, 0)
    }

    /// Index of the first matching binding at or after `i`.
    pub open spec fn spec_lookup_index_from(self, channel: u8, cc_num: u8, i: int) -> Option<int>
        decreases self.cc@.len() - i,
    {
        if i < 0 || i >= self.cc@.len() {
            None
        } else if self.cc@[i].channel == channel && self.cc@[i].cc_num == cc_num {
            Some(i)
        } else {
            self.spec_lookup_index_from(channel, cc_num, i + 1)
        }
    }

    /// The template of the first binding for the channel and controller,
    /// if any.
    pub open spec fn spec_lookup(self, channel: u8, cc_num: u8) -> Option<ControlMessage> {
        match self.spec_lookup_index(channel, cc_num) {
            None => None,
            Some(i) => Some(self.cc@[i].template),
        }
    }

    /// An empty controller map.
    pub fn new() -> (r: MidiMap)
        ensures
            r.cc@.len() == 0,
    {
        MidiMap { cc: Vec::new() }
    }

    /// Finds the template bound to a channel and controller number.
    pub fn lookup(&self, channel: u8, cc_num: u8) -> (r: Option<ControlMessage>)
        ensures
            r == self.spec_lookup(channel, cc_num),
    {
        let mut i: usize = 0;
        while i < self.cc.len()
            invariant
                i <= self.cc@.len(),
                self.spec_lookup_index(channel, cc_num) == self.spec_lookup_index_from(
                    channel,
                    cc_num,
                    i as int,
                ),
            decreases self.cc@.len() - i,
        {
            let b = &self.cc[i];
            if b.channel == channel && b.cc_num == cc_num {
                return Some(b.template);
            }
            i = i + 1;
        }
        None
    }
}

/// The engine's configuration: the tracks to create, the root directory
/// of the sample banks, and the controller map.
#[derive(Debug, Clone)]
pub struct Config {
    /// Generator kind and bank of each track, in order.
    pub tracks: Vec<TrackType>,
    /// Root directory of the sample banks.
    pub audio_root: String,
    /// Controller bindings.
    pub midi_map: MidiMap,
}

} // verus!
