//! A stopwatch stub that reports a fixed nominal duration per emulated
//! frame, so the engine's rate limiting has a duration source without a
//! real clock.

use vstd::prelude::*;

verus! {

/// The nominal duration reported for every measurement, in milliseconds.
pub const NOMINAL_FRAME_MILLIS: u64 = 100;

/// A stopwatch without a clock: measuring always reports the nominal
/// frame duration.
#[derive(Clone, Copy, PartialEq, Eq, Structural, Debug)]
pub struct InstantStopwatch {}

impl InstantStopwatch {
    pub fn new() -> (r: Self)
        ensures
            r == (InstantStopwatch {  }),
    {
        InstantStopwatch {  }
    }

    /// Reports the fixed nominal elapsed time, in milliseconds, regardless
    /// of real elapsed time.
    pub fn measure(&self) -> (r: u64)
        ensures
            r == NOMINAL_FRAME_MILLIS,
    {
        NOMINAL_FRAME_MILLIS
    }
}

impl Default for InstantStopwatch {
    fn default() -> (r: Self)
        ensures
            r == (InstantStopwatch {  }),
    {
        InstantStopwatch {  }
    }
}

} // verus!
