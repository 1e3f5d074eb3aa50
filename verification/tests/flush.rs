use zx_host::centering_offset;
use zx_host::color::{colour_conv, ZxBrightness, ZxColor};
use zx_host::control::{plan_flush, MAX_FRAME_DURATION_MILLIS};
use zx_host::framebuffer::{FrameBuffer, FrameBufferSource};
use zx_host::stopwatch::{InstantStopwatch, NOMINAL_FRAME_MILLIS};

#[test]
fn clean_buffer_plans_no_flush() {
    let fb = FrameBuffer::new(32, 24, FrameBufferSource::Screen);
    assert!(plan_flush(&fb, 32, 64).is_none());
}

#[test]
fn flush_covers_dirty_rect_with_offsets() {
    let mut fb = FrameBuffer::new(6, 4, FrameBufferSource::Screen);
    fb.set_color(2, 1, ZxColor::Red, ZxBrightness::Bright);
    fb.set_color(4, 2, ZxColor::Blue, ZxBrightness::Normal);
    let region = plan_flush(&fb, 32, 64).unwrap();
    assert_eq!(region.x0, 2 + 32);
    assert_eq!(region.y0, 1 + 64);
    assert_eq!(region.x1, 4 + 32);
    assert_eq!(region.y1, 2 + 64);
    // Stream length equals the advertised rectangle area.
    let area = (region.x1 - region.x0 + 1) * (region.y1 - region.y0 + 1);
    assert_eq!(region.pixels.len(), area);
    assert_eq!(region.pixels.len(), 6);
    // Row-major content: corners hold the two written pixels.
    assert_eq!(
        region.pixels[0],
        colour_conv(&ZxColor::Red, ZxBrightness::Bright)
    );
    assert_eq!(
        region.pixels[5],
        colour_conv(&ZxColor::Blue, ZxBrightness::Normal)
    );
}

#[test]
fn flush_after_reset_plans_nothing() {
    let mut fb = FrameBuffer::new(8, 8, FrameBufferSource::Screen);
    fb.set_color(3, 3, ZxColor::Green, ZxBrightness::Bright);
    assert!(plan_flush(&fb, 0, 0).is_some());
    fb.reset_bounding_box();
    assert!(plan_flush(&fb, 0, 0).is_none());
}

#[test]
fn centering_offsets_for_the_physical_display() {
    // A 256x192 logical screen centered on a 320x320 physical surface.
    assert_eq!(centering_offset(320, 256), 32);
    assert_eq!(centering_offset(320, 192), 64);
    assert_eq!(centering_offset(320, 320), 0);
}

#[test]
fn stopwatch_reports_the_nominal_duration() {
    let sw = InstantStopwatch::new();
    assert_eq!(sw.measure(), NOMINAL_FRAME_MILLIS);
    assert_eq!(sw.measure(), 100);
    let sw2 = InstantStopwatch::default();
    assert_eq!(sw2.measure(), 100);
}

#[test]
fn frame_budget_means_no_ceiling() {
    assert_eq!(MAX_FRAME_DURATION_MILLIS, 0);
}
