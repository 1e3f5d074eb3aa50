//! Host-adapter layer for a ZX Spectrum emulation core on an embedded device.
//!
//! The library owns the logic of that layer: translating the emulated
//! machine's colour model into the display's native pixel encoding, tracking
//! a minimal dirty rectangle over a frame buffer, reading a program asset as
//! a forward-only byte cursor, reporting a nominal frame time, mapping
//! physical keys to logical machine keys, and deciding what a display flush
//! must send. Hardware bring-up, the serial transport, the scancode decoder
//! and the emulation engine itself are outside collaborators.

pub mod color;
pub mod control;
pub mod framebuffer;
pub mod io;
pub mod stopwatch;
pub mod zx_event;

use vstd::prelude::*;

verus! {

/// The additive offset that centers a surface of `logical` pixels within a
/// physical extent of `physical` pixels along one axis. The two axes of a
/// display are centered independently with two calls.
pub fn centering_offset(physical: usize, logical: usize) -> (r: usize)
    requires
        logical <= physical,
    ensures
        r == (physical - logical) / 2,
{
    (physical - logical) / 2
}

} // verus!
