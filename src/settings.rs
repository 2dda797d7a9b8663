//! The configuration that the input side publishes and the output side reads.

use vstd::prelude::*;

use crate::{INITIAL_FRAME_RATE, LEVELS};

verus! {

/// Highest refresh rate the controller sets: the top level, times ten, plus ten.
pub const MAX_FRAME_RATE: u64 = 10 * 16;

/// Channel levels and refresh rate, published and read as one unit.
#[derive(Clone, Copy, Debug, PartialEq, Eq)]
pub struct Settings {
    pub levels: [u32; 3],
    pub frame_rate: u64,
}

impl Settings {
    /// Every level is in `[0, LEVELS - 1]` and the refresh rate is positive
    /// and no more than `MAX_FRAME_RATE`.
    pub open spec fn wf(&self) -> bool {
        &&& forall|i: int| 0 <= i < 3 ==> self.levels[i] < LEVELS
        &&& 0 < self.frame_rate <= MAX_FRAME_RATE
    }
}

impl Default for Settings {
    /// All channels at the top level, at the initial refresh rate.
    fn default() -> (r: Self)
        ensures
            r.wf(),
            forall|i: int| 0 <= i < 3 ==> r.levels[i] == LEVELS - 1,
            r.frame_rate == INITIAL_FRAME_RATE,
    {
        Settings { levels: [LEVELS - 1; 3], frame_rate: INITIAL_FRAME_RATE }
    }
}

} // verus!
