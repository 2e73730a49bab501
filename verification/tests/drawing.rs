use vga::colors::Color16;
use vga::device::VgaDevice;
use vga::modes::DisplayMode;

fn graphics_device() -> VgaDevice {
    let mut d = VgaDevice::new();
    d.set_mode(DisplayMode::Graphics640x480x16);
    d.clear_screen(Color16::Black);
    d
}

#[test]
fn set_pixel_and_read_back() {
    let mut d = graphics_device();
    d.set_pixel(13, 17, Color16::Yellow);
    assert_eq!(d.read_pixel(13, 17), Some(14));
    assert_eq!(d.read_pixel(12, 17), Some(0));
    assert_eq!(d.read_pixel(13, 16), Some(0));
}

/// Two pixels in the same planar byte: setting the second must not
/// disturb the first.
#[test]
fn set_pixel_shared_planar_byte() {
    let mut d = graphics_device();
    d.set_pixel(0, 0, Color16::White);
    d.set_pixel(1, 0, Color16::Blue);
    d.set_pixel(7, 0, Color16::Magenta);
    assert_eq!(d.read_pixel(0, 0), Some(15));
    assert_eq!(d.read_pixel(1, 0), Some(1));
    assert_eq!(d.read_pixel(7, 0), Some(5));
    assert_eq!(d.read_pixel(2, 0), Some(0));
}

#[test]
fn set_pixel_out_of_bounds_is_clipped() {
    let mut d = graphics_device();
    let log_len = d.write_log.len();
    d.set_pixel(640, 10, Color16::White);
    d.set_pixel(10, 480, Color16::White);
    assert_eq!(d.write_log.len(), log_len);
    for x in 0..640 {
        assert_eq!(d.read_pixel(x, 10), Some(0));
    }
}

#[test]
fn read_pixel_out_of_bounds_is_none() {
    let d = graphics_device();
    assert_eq!(d.read_pixel(640, 0), None);
    assert_eq!(d.read_pixel(0, 480), None);
    assert_eq!(d.read_pixel(usize::MAX, usize::MAX), None);
}

/// Clearing the screen makes every in-bounds pixel the fill color, and
/// out-of-bounds coordinates are never readable at all.
#[test]
fn clear_screen_fills_every_pixel() {
    let mut d = graphics_device();
    d.set_pixel(5, 5, Color16::White);
    d.clear_screen(Color16::Blue);
    for y in 0..480 {
        for x in 0..640 {
            assert_eq!(d.read_pixel(x, y), Some(1));
        }
    }
    assert_eq!(d.read_pixel(640, 60), None);
    d.clear_screen(Color16::Black);
    assert_eq!(d.read_pixel(5, 5), Some(0));
    assert_eq!(d.read_pixel(639, 479), Some(0));
}

/// A line whose endpoints coincide sets exactly one pixel.
#[test]
fn draw_line_degenerate_sets_one_pixel() {
    let mut d = graphics_device();
    d.draw_line((33, 44), (33, 44), Color16::White);
    let mut set = Vec::new();
    for y in 40..50 {
        for x in 29..38 {
            if d.read_pixel(x, y) == Some(15) {
                set.push((x, y));
            }
        }
    }
    assert_eq!(set, vec![(33, 44)]);
}

/// The horizontal line of the framed demo: every x in [80, 540] at y=60,
/// 461 pixels, and no other pixel of the screen.
#[test]
fn draw_line_horizontal_exact_pixels() {
    let mut d = graphics_device();
    d.draw_line((80, 60), (540, 60), Color16::White);
    let mut count = 0usize;
    for y in 0..480usize {
        for x in 0..640usize {
            let expected = if y == 60 && (80..=540).contains(&x) {
                15
            } else {
                0
            };
            assert_eq!(d.read_pixel(x, y), Some(expected));
            if d.read_pixel(x, y) == Some(15) {
                count += 1;
            }
        }
    }
    assert_eq!(count, 461);
}

#[test]
fn draw_line_vertical_exact_pixels() {
    let mut d = graphics_device();
    d.draw_line((80, 60), (80, 420), Color16::White);
    for y in 0..480usize {
        for x in 78..83usize {
            let expected = if x == 80 && (60..=420).contains(&y) {
                15
            } else {
                0
            };
            assert_eq!(d.read_pixel(x, y), Some(expected));
        }
    }
}

#[test]
fn draw_line_diagonal() {
    let mut d = graphics_device();
    d.draw_line((0, 0), (3, 3), Color16::Green);
    for p in [(0, 0), (1, 1), (2, 2), (3, 3)] {
        assert_eq!(d.read_pixel(p.0, p.1), Some(2));
    }
    assert_eq!(d.read_pixel(1, 0), Some(0));
    assert_eq!(d.read_pixel(0, 1), Some(0));
    assert_eq!(d.read_pixel(4, 4), Some(0));
}

/// A slanted line always includes both of its endpoints.
#[test]
fn draw_line_includes_endpoints() {
    let mut d = graphics_device();
    d.draw_line((11, 7), (253, 101), Color16::White);
    assert_eq!(d.read_pixel(11, 7), Some(15));
    assert_eq!(d.read_pixel(253, 101), Some(15));
    let mut d = graphics_device();
    d.draw_line((253, 101), (11, 7), Color16::White);
    assert_eq!(d.read_pixel(11, 7), Some(15));
    assert_eq!(d.read_pixel(253, 101), Some(15));
}

/// Both directions of the same segment cover the same set of pixels.
#[test]
fn draw_line_direction_symmetry_on_straight_lines() {
    let mut a = graphics_device();
    a.draw_line((10, 20), (30, 20), Color16::White);
    let mut b = graphics_device();
    b.draw_line((30, 20), (10, 20), Color16::White);
    for x in 0..50 {
        assert_eq!(a.read_pixel(x, 20), b.read_pixel(x, 20));
    }
}

/// Points of the path outside the resolution are clipped, silently.
#[test]
fn draw_line_clips_outside_points() {
    let mut d = graphics_device();
    d.draw_line((-5, 2), (5, 2), Color16::White);
    for x in 0..=5usize {
        assert_eq!(d.read_pixel(x, 2), Some(15));
    }
    assert_eq!(d.read_pixel(6, 2), Some(0));
}

/// Drawing in a packed-byte mode stores one byte per pixel and leaves the
/// graphics controller registers alone.
#[test]
fn packed_mode_drawing() {
    let mut d = VgaDevice::new();
    d.set_mode(DisplayMode::Graphics320x200x256);
    d.clear_screen(Color16::Black);
    let regs_before = d.graphics_controller.clone();
    let log_before = d.write_log.len();
    d.set_pixel(100, 150, Color16::LightRed);
    assert_eq!(d.graphics_controller, regs_before);
    assert_eq!(d.write_log.len(), log_before);
    assert_eq!(d.read_pixel(100, 150), Some(12));
    assert_eq!(d.read_pixel(99, 150), Some(0));
    assert_eq!(d.read_pixel(320, 0), None);
    assert_eq!(d.read_pixel(0, 200), None);
    assert_eq!(d.packed_memory[150 * 320 + 100], 12);
}
