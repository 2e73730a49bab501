use vga::colors::Color16;
use vga::device::VgaDevice;
use vga::font::Font;
use vga::modes::DisplayMode;

fn graphics_device() -> VgaDevice {
    let mut d = VgaDevice::new();
    d.set_mode(DisplayMode::Graphics640x480x16);
    d.clear_screen(Color16::Black);
    d
}

/// A font whose glyph for 'A' (code 65) is a known pattern; all other
/// codes up to 65 render blank.
fn test_font() -> Font {
    let mut glyphs = vec![[0u8; 8]; 66];
    glyphs[65] = [0x18, 0x24, 0x42, 0x7E, 0x42, 0x42, 0x42, 0x00];
    Font { glyphs }
}

/// Color lands exactly where the glyph bitmap has a one bit; every other
/// pixel of the bounding box keeps its pre-call value.
#[test]
fn draw_character_matches_bitmap() {
    let mut d = graphics_device();
    d.clear_screen(Color16::Blue);
    let font = test_font();
    d.draw_character(100, 200, 'A', &font, Color16::White);
    let rows: [u8; 8] = [0x18, 0x24, 0x42, 0x7E, 0x42, 0x42, 0x42, 0x00];
    for row in 0..8usize {
        for col in 0..8usize {
            let bit = rows[row] & (0x80 >> col) != 0;
            let expected = if bit { 15 } else { 1 };
            assert_eq!(d.read_pixel(100 + col, 200 + row), Some(expected));
        }
    }
    // just outside the bounding box nothing changed
    assert_eq!(d.read_pixel(99, 200), Some(1));
    assert_eq!(d.read_pixel(108, 200), Some(1));
    assert_eq!(d.read_pixel(100, 199), Some(1));
    assert_eq!(d.read_pixel(100, 208), Some(1));
}

/// A character code with no glyph entry renders as a blank glyph: the
/// call succeeds and paints nothing.
#[test]
fn draw_character_unmapped_renders_blank() {
    let mut d = graphics_device();
    d.clear_screen(Color16::Green);
    let font = test_font();
    d.draw_character(10, 10, 'z', &font, Color16::White);
    for row in 0..8usize {
        for col in 0..8usize {
            assert_eq!(d.read_pixel(10 + col, 10 + row), Some(2));
        }
    }
    let empty = Font::new_empty();
    d.draw_character(10, 10, 'A', &empty, Color16::White);
    for row in 0..8usize {
        for col in 0..8usize {
            assert_eq!(d.read_pixel(10 + col, 10 + row), Some(2));
        }
    }
}

/// A glyph drawn at the right edge is clipped per pixel.
#[test]
fn draw_character_clipped_at_edge() {
    let mut d = graphics_device();
    let mut glyphs = vec![[0u8; 8]; 1];
    glyphs[0] = [0xFF; 8];
    let font = Font { glyphs };
    d.draw_character(636, 0, '\u{0}', &font, Color16::White);
    for row in 0..8usize {
        for col in 0..4usize {
            assert_eq!(d.read_pixel(636 + col, row), Some(15));
        }
    }
    assert_eq!(d.read_pixel(635, 0), Some(0));
    // fully outside: nothing painted anywhere
    let mut d2 = graphics_device();
    d2.draw_character(640, 0, '\u{0}', &font, Color16::White);
    for x in 630..640usize {
        assert_eq!(d2.read_pixel(x, 0), Some(0));
    }
}

/// Clear bits paint nothing: a glyph over existing pixels only adds.
#[test]
fn draw_character_no_background_fill() {
    let mut d = graphics_device();
    d.set_pixel(101, 200, Color16::Red);
    let font = test_font();
    d.draw_character(100, 200, 'A', &font, Color16::White);
    // (101, 200) has glyph bit 0 in row 0 (0x18), so the red pixel stays
    assert_eq!(d.read_pixel(101, 200), Some(4));
}
