use vstd::prelude::*;

verus! {

/// The animation clock: a frame count that the host advances once per
/// update and the renderer reads to phase the body's motion.
pub struct FrameClock {
    pub frame_counter: u64,
}

impl FrameClock {
    /// A clock at frame 0.
    pub fn new() -> (r: FrameClock)
        ensures
            r.frame_counter == 0,
    {
        FrameClock { frame_counter: 0 }
    }

    /// Moves the clock on by one frame. The count never decreases: at the
    /// largest value it stays there.
    pub fn advance(&mut self) -> (r: u64)
        ensures
            final(self).frame_counter == (if old(self).frame_counter < u64::MAX {
                old(self).frame_counter + 1
            } else {
                old(self).frame_counter as int
            }),
            r == final(self).frame_counter,
    {
        self.frame_counter = self.frame_counter.saturating_add(1);
        self.frame_counter
    }
}

} // verus!
