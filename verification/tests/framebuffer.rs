use zx_host::color::{colour_conv, ZxBrightness, ZxColor};
use zx_host::framebuffer::{FrameBuffer, FrameBufferSource};

#[test]
fn fresh_buffer_has_no_dirty_region() {
    let fb = FrameBuffer::new(256, 192, FrameBufferSource::Screen);
    assert_eq!(fb.bounding_box_top_left, None);
    assert_eq!(fb.bounding_box_bottom_right, None);
    assert_eq!(fb.buffer.len(), 256 * 192);
    assert_eq!(fb.buffer_width, 256);
}

#[test]
fn border_buffer_is_one_pixel() {
    let fb = FrameBuffer::new(256, 192, FrameBufferSource::Border);
    assert_eq!(fb.buffer.len(), 1);
    assert_eq!(fb.buffer_width, 1);
    assert_eq!(
        fb.buffer[0],
        colour_conv(&ZxColor::White, ZxBrightness::Bright)
    );
    assert_eq!(fb.bounding_box_top_left, None);
}

#[test]
fn redundant_write_does_not_grow_dirty_rect() {
    // The end-to-end scenario on a full 256x192 screen surface.
    let mut fb = FrameBuffer::new(256, 192, FrameBufferSource::Screen);
    fb.set_color(10, 20, ZxColor::Red, ZxBrightness::Bright);
    assert_eq!(fb.bounding_box_top_left, Some((10, 20)));
    assert_eq!(fb.bounding_box_bottom_right, Some((10, 20)));
    // Same value again: an identical write must not grow the rectangle.
    fb.set_color(10, 20, ZxColor::Red, ZxBrightness::Bright);
    assert_eq!(fb.bounding_box_top_left, Some((10, 20)));
    assert_eq!(fb.bounding_box_bottom_right, Some((10, 20)));
    // A second actual change grows it to cover both coordinates.
    fb.set_color(50, 5, ZxColor::Blue, ZxBrightness::Normal);
    assert_eq!(fb.bounding_box_top_left, Some((10, 5)));
    assert_eq!(fb.bounding_box_bottom_right, Some((50, 20)));
}

#[test]
fn dirty_rect_is_bounding_box_of_changes() {
    let mut fb = FrameBuffer::new(64, 48, FrameBufferSource::Screen);
    fb.set_color(8, 40, ZxColor::Green, ZxBrightness::Bright);
    fb.set_color(3, 44, ZxColor::Cyan, ZxBrightness::Normal);
    fb.set_color(60, 2, ZxColor::Yellow, ZxBrightness::Bright);
    assert_eq!(fb.bounding_box_top_left, Some((3, 2)));
    assert_eq!(fb.bounding_box_bottom_right, Some((60, 44)));
}

#[test]
fn reset_clears_dirty_region_until_next_change() {
    let mut fb = FrameBuffer::new(32, 24, FrameBufferSource::Screen);
    fb.set_color(1, 2, ZxColor::Blue, ZxBrightness::Bright);
    assert!(fb.bounding_box_top_left.is_some());
    fb.reset_bounding_box();
    assert_eq!(fb.bounding_box_top_left, None);
    assert_eq!(fb.bounding_box_bottom_right, None);
    // The pixels keep their values; only the dirty state is cleared.
    assert_eq!(
        fb.buffer[2 * 32 + 1],
        colour_conv(&ZxColor::Blue, ZxBrightness::Bright)
    );
    // The next actual change opens a fresh rectangle at that point alone.
    fb.set_color(7, 9, ZxColor::Red, ZxBrightness::Normal);
    assert_eq!(fb.bounding_box_top_left, Some((7, 9)));
    assert_eq!(fb.bounding_box_bottom_right, Some((7, 9)));
}

#[test]
fn rewriting_same_value_after_reset_keeps_region_clear() {
    let mut fb = FrameBuffer::new(32, 24, FrameBufferSource::Screen);
    fb.set_color(5, 5, ZxColor::White, ZxBrightness::Bright);
    fb.reset_bounding_box();
    // Writing the value that is already there is not a change.
    fb.set_color(5, 5, ZxColor::White, ZxBrightness::Bright);
    assert_eq!(fb.bounding_box_top_left, None);
    assert_eq!(fb.bounding_box_bottom_right, None);
}

#[test]
fn set_colors_behaves_as_eight_single_writes() {
    let mut fb = FrameBuffer::new(16, 2, FrameBufferSource::Screen);
    let green = [ZxColor::Green; 8];
    fb.set_colors(0, 0, green, ZxBrightness::Bright);
    assert_eq!(fb.bounding_box_top_left, Some((0, 0)));
    assert_eq!(fb.bounding_box_bottom_right, Some((7, 0)));
    for i in 0..8 {
        assert_eq!(
            fb.buffer[i],
            colour_conv(&ZxColor::Green, ZxBrightness::Bright)
        );
    }
    fb.reset_bounding_box();
    // First four cells already hold green: only the last four change.
    let mixed = [
        ZxColor::Green,
        ZxColor::Green,
        ZxColor::Green,
        ZxColor::Green,
        ZxColor::Red,
        ZxColor::Red,
        ZxColor::Red,
        ZxColor::Red,
    ];
    fb.set_colors(0, 0, mixed, ZxBrightness::Bright);
    assert_eq!(fb.bounding_box_top_left, Some((4, 0)));
    assert_eq!(fb.bounding_box_bottom_right, Some((7, 0)));
}

#[test]
fn region_pixels_are_row_major_inclusive() {
    let mut fb = FrameBuffer::new(4, 3, FrameBufferSource::Screen);
    fb.set_color(1, 0, ZxColor::Red, ZxBrightness::Bright);
    fb.set_color(2, 1, ZxColor::Blue, ZxBrightness::Bright);
    let region = fb.get_region_pixel_iter((1, 0), (2, 1));
    assert_eq!(region.len(), 4);
    assert_eq!(region[0], colour_conv(&ZxColor::Red, ZxBrightness::Bright));
    assert_eq!(region[1], fb.buffer[2]);
    assert_eq!(region[2], fb.buffer[4 + 1]);
    assert_eq!(region[3], colour_conv(&ZxColor::Blue, ZxBrightness::Bright));
    // Re-reading the same bounds yields the same sequence.
    let again = fb.get_region_pixel_iter((1, 0), (2, 1));
    assert_eq!(region, again);
}
