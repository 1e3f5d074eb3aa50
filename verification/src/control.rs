//! The control loop's decisions, separated from the outside work the loop
//! interleaves them with.
//!
//! One loop iteration polls the input transport, decodes and dispatches a
//! key event, advances the emulation by one frame, and — when the frame
//! buffer has a dirty rectangle — streams that rectangle's pixels to the
//! display and clears the dirty state. Polling, decoding, emulating and
//! transmitting are outside work; what this module owns is the decision:
//! whether to flush, which physical-display rectangle to address, and
//! exactly which pixels to stream.

use vstd::prelude::*;

use crate::color::Rgb;
use crate::framebuffer::FrameBuffer;

verus! {

/// The frame budget handed to the engine for one emulated frame, in
/// milliseconds. Zero signals no artificial ceiling: the engine runs until
/// its own frame-completion condition is met.
pub const MAX_FRAME_DURATION_MILLIS: u64 = 0;

/// One display flush: the inclusive rectangle to address, in physical
/// display coordinates, and the pixels to stream into it, row-major
/// ascending.
pub struct FlushRegion {
    pub x0: usize,
    pub y0: usize,
    pub x1: usize,
    pub y1: usize,
    pub pixels: Vec<Rgb>,
}

/// Decides one iteration's display flush. Nothing is flushed while the
/// frame buffer has no dirty rectangle. Otherwise the dirty rectangle is
/// translated by the two centering offsets into physical display
/// coordinates, and its pixels are gathered row-major; the stream's length
/// is exactly (x1 - x0 + 1) * (y1 - y0 + 1).
pub fn plan_flush(fb: &FrameBuffer, offset_x: usize, offset_y: usize) -> (r: Option<FlushRegion>)
    requires
        fb.inv(),
        offset_x + fb@.width <= usize::MAX,
        offset_y + fb@.height() <= usize::MAX,
    ensures
        fb@.top_left is None ==> r is None,
        fb@.top_left is Some ==> ({
            let tl = fb@.top_left.unwrap();
            let br = fb@.bottom_right.unwrap();
            let rw = br.0 - tl.0 + 1;
            let fr = r.unwrap();
            &&& r is Some
            &&& fr.x0 == tl.0 + offset_x
            &&& fr.y0 == tl.1 + offset_y
            &&& fr.x1 == br.0 + offset_x
            &&& fr.y1 == br.1 + offset_y
            &&& fr.pixels@.len() == (fr.x1 - fr.x0 + 1) * (fr.y1 - fr.y0 + 1)
            &&& forall|i: int| 0 <= i < fr.pixels@.len() ==> #[trigger] fr.pixels@[i]
                == fb@.pixels[(tl.1 + i / rw) * fb@.width + tl.0 + i % rw]
        }),
{
    match (fb.bounding_box_top_left, fb.bounding_box_bottom_right) {
        (Some(tl), Some(br)) => {
            proof {
                let pa = choose|p: (usize, usize)|
                    #[trigger] fb@.touched.contains(p) && p.0 == br.0;
                let pb = choose|p: (usize, usize)|
                    #[trigger] fb@.touched.contains(p) && p.1 == br.1;
                assert(fb@.touched.contains(pa) && fb@.touched.contains(pb));
            }
            let pixels = fb.get_region_pixel_iter(tl, br);
            Some(
                FlushRegion {
                    x0: tl.0 + offset_x,
                    y0: tl.1 + offset_y,
                    x1: br.0 + offset_x,
                    y1: br.1 + offset_y,
                    pixels,
                },
            )
        },
        _ => None,
    }
}

} // verus!
