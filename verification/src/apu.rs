//! The audio processing unit (its channels are not yet emulated).
use vstd::prelude::*;

verus! {

/// The APU. It holds no channel state yet.
pub struct Apu {}

impl Apu {
    pub fn new() -> (r: Self)
        ensures
            r == (Apu {}),
    {
        Self {  }
    }

    /// Generates the pulse channels' output (nothing is generated yet).
    pub fn update_pulse_channel(&mut self)
        ensures
            *final(self) == *old(self),
    {
    }

    /// Generates the triangle channel's output (nothing is generated yet).
    pub fn update_triangle_channel(&mut self)
        ensures
            *final(self) == *old(self),
    {
    }
}

} // verus!
