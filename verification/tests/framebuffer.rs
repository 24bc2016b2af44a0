use diorama::color::Color;
use diorama::framebuffer::Framebuffer;

#[test]
fn new_frame_is_black() {
    let fb = Framebuffer::new(5, 4);
    assert_eq!(fb.width, 5);
    assert_eq!(fb.height, 4);
    assert_eq!(fb.buffer, vec![0u32; 20]);
    assert_eq!(fb.current_color, Color::new(255, 255, 255));
}

#[test]
fn empty_frames() {
    assert!(Framebuffer::new(0, 0).buffer.is_empty());
    assert!(Framebuffer::new(7, 0).buffer.is_empty());
    assert!(Framebuffer::new(0, 7).buffer.is_empty());
    let mut fb = Framebuffer::new(0, 7);
    fb.point(0, 0);
    fb.clear();
    assert!(fb.buffer.is_empty());
}

#[test]
fn point_draws_in_the_current_colour() {
    let mut fb = Framebuffer::new(5, 4);
    fb.point(2, 1);
    assert_eq!(fb.buffer[1 * 5 + 2], 0x00FF_FFFF);
    fb.set_current_color(Color::new(0x12, 0x34, 0x56));
    fb.point(4, 3);
    assert_eq!(fb.buffer[19], 0x0012_3456);
    fb.point(0, 0);
    assert_eq!(fb.buffer[0], 0x0012_3456);
    assert_eq!(fb.buffer.iter().filter(|p| **p != 0).count(), 3);
    assert_eq!(fb.buffer[7], 0x00FF_FFFF);
}

#[test]
fn points_outside_are_not_drawn() {
    let mut fb = Framebuffer::new(5, 4);
    fb.point(5, 0);
    fb.point(0, 4);
    fb.point(5, 4);
    fb.point(usize::MAX, 0);
    fb.point(0, usize::MAX);
    fb.point(usize::MAX, usize::MAX);
    assert_eq!(fb.buffer, vec![0u32; 20]);
}

#[test]
fn point_respects_a_short_buffer() {
    let mut fb = Framebuffer::new(3, 3);
    fb.buffer.truncate(4);
    fb.point(0, 1);
    fb.point(1, 1);
    fb.point(2, 2);
    assert_eq!(fb.buffer, vec![0, 0, 0, 0x00FF_FFFF]);
    fb.width = usize::MAX;
    fb.height = usize::MAX;
    fb.point(3, 0);
    fb.point(0, 1);
    fb.point(5, usize::MAX - 1);
    assert_eq!(fb.buffer, vec![0, 0, 0, 0x00FF_FFFF]);
}

#[test]
fn clear_blackens_and_keeps_the_colour() {
    let mut fb = Framebuffer::new(3, 2);
    fb.set_current_color(Color::new(1, 2, 3));
    for y in 0..2 {
        for x in 0..3 {
            fb.point(x, y);
        }
    }
    assert_eq!(fb.buffer, vec![0x0001_0203; 6]);
    fb.clear();
    assert_eq!(fb.buffer, vec![0u32; 6]);
    assert_eq!(fb.width, 3);
    assert_eq!(fb.height, 2);
    assert_eq!(fb.current_color, Color::new(1, 2, 3));
    fb.point(1, 1);
    assert_eq!(fb.buffer[4], 0x0001_0203);
}
