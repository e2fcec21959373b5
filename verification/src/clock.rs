//! The animation clock: a frame counter advanced once per presented frame.
//!
//! Animation time is defined as `frame / 60` seconds at the reference rate.
//! The division is a floating-point operation performed by the presentation
//! layer; the clock itself only counts frames, monotonically, never resetting
//! or rewinding.

use vstd::prelude::*;

verus! {

/// Counts presented frames, starting at zero. The current count is the sole
/// input to animation time and to the reload cadence.
pub struct AnimationClock {
    frame: u64,
}

impl AnimationClock {
    /// A fresh clock, at frame zero.
    pub fn new() -> (r: AnimationClock)
        ensures
            r.frame() == 0,
    {
        AnimationClock { frame: 0 }
    }

    /// The number of frames presented so far.
    pub closed spec fn frame(self) -> u64 {
        self.frame
    }

    /// The number of frames presented so far.
    pub fn current_frame(&self) -> (r: u64)
        ensures
            r == self.frame(),
    {
        self.frame
    }

    /// Advance by exactly one frame. The clock never rewinds: the count only
    /// grows, by one per call.
    pub fn tick(&mut self)
        requires
            old(self).frame() < u64::MAX,
        ensures
            final(self).frame() == old(self).frame() + 1,
    {
        self.frame = self.frame + 1;
    }
}

} // verus!
