//! A countdown timer: an 8-bit counter that saturates at zero.

use vstd::prelude::*;

verus! {

/// One of the machine's two timers (delay and sound). The host decrements
/// it once per fixed-rate tick; instructions may only set it.
pub struct Timer {
    pub counter: u8,
}

impl Timer {
    /// Builds a timer whose counter starts at zero.
    pub fn new() -> (r: Timer)
        ensures
            r.counter == 0,
    {
        Timer { counter: 0 }
    }

    /// Decrements the counter by one while it is above zero; a counter at
    /// zero stays at zero.
    pub fn decrement(&mut self)
        ensures
            final(self).counter == if old(self).counter > 0 {
                (old(self).counter - 1) as u8
            } else {
                0u8
            },
    {
        if self.counter > 0 {
            self.counter = self.counter - 1;
        }
    }
}

} // verus!
