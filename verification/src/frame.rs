use vstd::prelude::*;

verus! {

/// One stereo frame. Each channel carries the raw 32-bit word of a
/// single-precision sample; the engine never interprets the word, it only
/// stores, copies and selects frames, so the word is an opaque plain value
/// here. The all-zero word is the equilibrium (silent) sample.
#[derive(Debug, Clone, Copy, PartialEq, Eq, Structural)]
pub struct Frame {
    /// Raw word of the left-channel sample.
    pub left: u32,
    /// Raw word of the right-channel sample.
    pub right: u32,
}

impl Frame {
    /// The silent frame: both channels at equilibrium.
    pub open spec fn spec_equilibrium() -> Frame {
        Frame { left: 0, right: 0 }
    }

    /// Returns the silent frame.
    pub fn equilibrium() -> (r: Frame)
        ensures
            r == Frame::spec_equilibrium(),
    {
        Frame { left: 0, right: 0 }
    }

    /// A frame is silent when both channels are at equilibrium.
    pub open spec fn is_equilibrium(self) -> bool {
        self == Frame::spec_equilibrium()
    }
}

} // verus!
