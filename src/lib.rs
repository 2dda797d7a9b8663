//! Live calibration of a tri-colour LED: a knob is quantized into discrete
//! levels, two buttons select which parameter the knob sets, and a software
//! pulse generator turns the levels into on and off times for each channel.

use vstd::prelude::*;

pub mod knob;
pub mod rgb;
pub mod settings;
pub mod ui;

verus! {

/// Number of discrete steps for every level in the program.
pub const LEVELS: u32 = 16;

/// Refresh rate, in sweeps per second, used before the knob is first read.
pub const INITIAL_FRAME_RATE: u64 = 50;

} // verus!
