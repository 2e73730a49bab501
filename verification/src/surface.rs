//! Pixel-level drawing on the framebuffer of the active graphics mode.
//!
//! The fundamental primitive is `set_pixel`.  Under the packed-byte
//! encoding it stores one byte per pixel.  Under the planar encoding one
//! byte address spans eight horizontal pixels across all four bit planes,
//! so writing one pixel is a read-modify-write through the modeled
//! Set/Reset, Enable Set/Reset and Bit Mask registers that must leave the
//! other seven pixels of the byte untouched — the contracts here prove
//! exactly that.  Coordinates outside the active resolution are clipped:
//! nothing is written and nothing is signaled.

use vstd::prelude::*;

verus! {

use vstd::arithmetic::div_mod::lemma_fundamental_div_mod;

use crate::colors::Color16;
use crate::device::PACKED_SIZE;
use crate::device::PLANE_SIZE;
use crate::device::VgaDevice;
use crate::font::Font;
use crate::line::line_point_at;
use crate::line::line_points;
use crate::line::line_state;
use crate::line::magnitude;
use crate::line::sign;
use crate::modes::DisplayMode;
use crate::modes::ModeDescriptor;
use crate::modes::PixelEncoding;
use crate::registers::GraphicsControllerIndex;
use crate::registers::RegisterWrite;

/// Bit `pos` of `b`, as 0 or 1.
pub open spec fn bit_of(b: u8, pos: u8) -> u8 {
    (b >> pos) & 1
}

/// Byte offset of pixel (x, y) within each bit plane under the planar
/// encoding: 80 bytes per scan line, eight pixels per byte.
pub open spec fn planar_offset(x: int, y: int) -> int {
    y * 80 + x / 8
}

/// Bit position of pixel `x` within its planar byte.  The most significant
/// bit is the leftmost pixel.
pub open spec fn planar_bit(x: int) -> u8 {
    (7 - (x % 8)) as u8
}

/// The byte that a masked planar store leaves in a plane: the bit selected
/// by `1 << p` becomes `on`, every other bit keeps its value.
pub open spec fn merged_byte(b: u8, p: u8, on: bool) -> u8 {
    (b & !(1u8 << p)) | (if on {
        1u8 << p
    } else {
        0u8
    })
}

/// Effect of a masked planar store on each bit of the byte.
proof fn lemma_merged_byte_bits(b: u8, p: u8, q: u8, on: bool)
    by (bit_vector)
    requires
        p < 8,
        q < 8,
    ensures
        p == q ==> bit_of(merged_byte(b, p, on), q) == (if on {
            1u8
        } else {
            0u8
        }),
        p != q ==> bit_of(merged_byte(b, p, on), q) == bit_of(b, q),
{
}

/// Relates the low four bits of a color value to its bit tests, and bounds
/// each extracted bit.
proof fn lemma_low_bits(v: u8)
    by (bit_vector)
    ensures
        ((v & 0x01) != 0) == (bit_of(v, 0) == 1),
        ((v & 0x02) != 0) == (bit_of(v, 1) == 1),
        ((v & 0x04) != 0) == (bit_of(v, 2) == 1),
        ((v & 0x08) != 0) == (bit_of(v, 3) == 1),
        bit_of(v, 0) <= 1,
        bit_of(v, 1) <= 1,
        bit_of(v, 2) <= 1,
        bit_of(v, 3) <= 1,
{
}

/// A value below 16 is the weighted sum of its four low bits.
proof fn lemma_nibble_value(v: u8)
    by (bit_vector)
    requires
        v < 16,
    ensures
        bit_of(v, 0) + 2 * bit_of(v, 1) + 4 * bit_of(v, 2) + 8 * bit_of(v, 3) == v,
{
}

/// An extracted bit is zero or one.
proof fn lemma_bit_le_one(b: u8, p: u8)
    by (bit_vector)
    ensures
        bit_of(b, p) <= 1,
{
}

/// Every bit of an all-ones byte is one; of a zero byte, zero.
proof fn lemma_fill_bit(p: u8, on: bool)
    by (bit_vector)
    requires
        p < 8,
    ensures
        bit_of(
            if on {
                0xFFu8
            } else {
                0u8
            },
            p,
        ) == (if on {
            1u8
        } else {
            0u8
        }),
{
}

/// Two distinct in-bounds planar pixels either live at different byte
/// offsets or at different bit positions of the same byte.
proof fn lemma_planar_addressing_injective(x1: int, y1: int, x2: int, y2: int)
    requires
        0 <= x1 < 640,
        0 <= y1 < 480,
        0 <= x2 < 640,
        0 <= y2 < 480,
        !(x1 == x2 && y1 == y2),
    ensures
        planar_offset(x1, y1) != planar_offset(x2, y2) || planar_bit(x1) != planar_bit(x2),
{
    if planar_offset(x1, y1) == planar_offset(x2, y2) {
        assert(0 <= x1 / 8 < 80);
        assert(0 <= x2 / 8 < 80);
        assert(y1 == y2);
        assert(x1 / 8 == x2 / 8);
        lemma_fundamental_div_mod(x1, 8);
        lemma_fundamental_div_mod(x2, 8);
        assert(x1 % 8 != x2 % 8);
    }
}

impl VgaDevice {
    /// The mode the device is switched to.
    pub open spec fn current_mode(self) -> DisplayMode
        recommends
            self.active_mode is Some,
    {
        self.active_mode->0
    }

    /// The memory-model descriptor of the active mode.
    pub open spec fn current_descriptor(self) -> ModeDescriptor
        recommends
            self.active_mode is Some,
    {
        self.current_mode().descriptor()
    }

    /// A graphics mode is active, so the framebuffer holds pixels.
    pub open spec fn graphics_active(self) -> bool {
        self.active_mode matches Some(m) && m.is_graphics()
    }

    /// Pixel (x, y) lies within the active mode's resolution.
    pub open spec fn in_bounds(self, x: int, y: int) -> bool
        recommends
            self.active_mode is Some,
    {
        &&& 0 <= x < self.current_descriptor().width
        &&& 0 <= y < self.current_descriptor().height
    }

    /// The color value of in-bounds pixel (x, y) under the active graphics
    /// mode: the byte at its packed offset, or the four plane bits gathered
    /// into a nibble.
    pub open spec fn pixel(self, x: int, y: int) -> u8
        recommends
            self.wf(),
            self.graphics_active(),
            self.in_bounds(x, y),
    {
        if self.current_descriptor().encoding is Planar4Bit {
            let off = planar_offset(x, y);
            let p = planar_bit(x);
            (bit_of(self.plane0@[off], p) + 2 * bit_of(self.plane1@[off], p) + 4 * bit_of(
                self.plane2@[off],
                p,
            ) + 8 * bit_of(self.plane3@[off], p)) as u8
        } else {
            self.packed_memory@[y * self.current_descriptor().width + x]
        }
    }

    /// Registers, log and mode after a drawing call: every group except the
    /// graphics controller is untouched; of the graphics controller only
    /// the Set/Reset, Enable Set/Reset and Bit Mask registers, which the
    /// planar write path programs, may differ; the write log has only
    /// grown; the active mode stands.
    pub open spec fn draw_frame(self, pre: VgaDevice) -> bool {
        &&& self.miscellaneous_output == pre.miscellaneous_output
        &&& self.sequencer@ == pre.sequencer@
        &&& self.crtc_controller@ == pre.crtc_controller@
        &&& self.attribute_controller@ == pre.attribute_controller@
        &&& self.attribute_expects_data == pre.attribute_expects_data
        &&& self.graphics_controller@.len() == pre.graphics_controller@.len()
        &&& forall|r: int|
            0 <= r < pre.graphics_controller@.len()
                && r != GraphicsControllerIndex::SetReset.index()
                && r != GraphicsControllerIndex::EnableSetReset.index()
                && r != GraphicsControllerIndex::BitMask.index()
                ==> self.graphics_controller@[r] == pre.graphics_controller@[r]
        &&& pre.write_log@.is_prefix_of(self.write_log@)
        &&& self.active_mode == pre.active_mode
    }

    /// Sets pixel (x, y) of the active graphics mode to `color`.  Exactly
    /// that pixel changes; every other in-bounds pixel keeps its value —
    /// under the planar encoding the other seven pixels sharing the byte
    /// included.  An out-of-bounds coordinate is clipped: the device is
    /// left entirely unchanged.
    pub fn set_pixel(&mut self, x: usize, y: usize, color: Color16)
        requires
            old(self).wf(),
            old(self).graphics_active(),
        ensures
            final(self).wf(),
            final(self).graphics_active(),
            final(self).draw_frame(*old(self)),
            forall|px: int, py: int|
                old(self).in_bounds(px, py) ==> final(self).pixel(px, py) == (if px == x as int
                    && py == y as int {
                    color.value()
                } else {
                    old(self).pixel(px, py)
                }),
            !old(self).in_bounds(x as int, y as int) ==> final(self).registers_unchanged_from(
                *old(self),
            ) && final(self).memory_unchanged_from(*old(self)) && final(self).write_log@ == old(self).write_log@,
            old(self).in_bounds(x as int, y as int) && old(self).current_descriptor().encoding is Planar4Bit ==> final(self).graphics_controller@
                == old(self).graphics_controller@.update(
                GraphicsControllerIndex::SetReset.index(),
                color.value(),
            ).update(GraphicsControllerIndex::EnableSetReset.index(), 0x0F).update(
                GraphicsControllerIndex::BitMask.index(),
                1u8 << planar_bit(x as int),
            ) && final(self).write_log@ == old(self).write_log@ + seq![
                RegisterWrite::GraphicsController(GraphicsControllerIndex::SetReset, color.value()),
                RegisterWrite::GraphicsController(GraphicsControllerIndex::EnableSetReset, 0x0F),
                RegisterWrite::GraphicsController(
                    GraphicsControllerIndex::BitMask,
                    1u8 << planar_bit(x as int),
                ),
            ] && final(self).packed_memory@ == old(self).packed_memory@,
            old(self).in_bounds(x as int, y as int) && old(self).current_descriptor().encoding is PackedByte ==> final(self).registers_unchanged_from(
                *old(self),
            ) && final(self).write_log@ == old(self).write_log@ && final(self).plane0@ == old(self).plane0@ && final(self).plane1@ == old(self).plane1@ && final(self).plane2@ == old(self).plane2@ && final(self).plane3@ == old(self).plane3@ && final(self).packed_memory@
                == old(self).packed_memory@.update(
                y as int * old(self).current_descriptor().width + x as int,
                color.value(),
            ),
    {
        let mode = self.active_mode.unwrap();
        let d = mode.to_descriptor();
        if x >= d.width || y >= d.height {
            return ;
        }
        let cv = color.to_u8();
        match d.encoding {
            PixelEncoding::Planar4Bit => {
                let shift: u8 = (x % 8) as u8;
                let p: u8 = 7 - shift;
                let mask: u8 = 1u8 << p;
                proof {
                    assert(p == planar_bit(x as int));
                }
                self.write_graphics_controller(GraphicsControllerIndex::SetReset, cv);
                self.write_graphics_controller(GraphicsControllerIndex::EnableSetReset, 0x0F);
                self.write_graphics_controller(GraphicsControllerIndex::BitMask, mask);
                let off = y * 80 + x / 8;
                proof {
                    assert(d.width == 640 && d.height == 480);
                    assert(off == planar_offset(x as int, y as int));
                    assert(off < PLANE_SIZE);
                }
                let on0 = cv & 0x01 != 0;
                let b0 = self.plane0[off];
                self.plane0[off] = (b0 & !mask) | (if on0 {
                    mask
                } else {
                    0
                });
                let on1 = cv & 0x02 != 0;
                let b1 = self.plane1[off];
                self.plane1[off] = (b1 & !mask) | (if on1 {
                    mask
                } else {
                    0
                });
                let on2 = cv & 0x04 != 0;
                let b2 = self.plane2[off];
                self.plane2[off] = (b2 & !mask) | (if on2 {
                    mask
                } else {
                    0
                });
                let on3 = cv & 0x08 != 0;
                let b3 = self.plane3[off];
                self.plane3[off] = (b3 & !mask) | (if on3 {
                    mask
                } else {
                    0
                });
                proof {
                    lemma_low_bits(cv);
                    assert(self.plane0@ == old(self).plane0@.update(
                        off as int,
                        merged_byte(b0, p, on0),
                    ));
                    assert(self.plane1@ == old(self).plane1@.update(
                        off as int,
                        merged_byte(b1, p, on1),
                    ));
                    assert(self.plane2@ == old(self).plane2@.update(
                        off as int,
                        merged_byte(b2, p, on2),
                    ));
                    assert(self.plane3@ == old(self).plane3@.update(
                        off as int,
                        merged_byte(b3, p, on3),
                    ));
                    assert forall|px: int, py: int| old(self).in_bounds(px, py) implies self.pixel(
                        px,
                        py,
                    ) == (if px == x as int && py == y as int {
                        color.value()
                    } else {
                        old(self).pixel(px, py)
                    }) by {
                        let q = planar_bit(px);
                        let qoff = planar_offset(px, py);
                        assert(q < 8) by {
                            lemma_fundamental_div_mod(px, 8);
                        }
                        if px == x as int && py == y as int {
                            lemma_merged_byte_bits(b0, p, q, on0);
                            lemma_merged_byte_bits(b1, p, q, on1);
                            lemma_merged_byte_bits(b2, p, q, on2);
                            lemma_merged_byte_bits(b3, p, q, on3);
                            lemma_nibble_value(cv);
                        } else {
                            lemma_planar_addressing_injective(
                                px,
                                py,
                                x as int,
                                y as int,
                            );
                            if qoff == off as int {
                                lemma_merged_byte_bits(b0, p, q, on0);
                                lemma_merged_byte_bits(b1, p, q, on1);
                                lemma_merged_byte_bits(b2, p, q, on2);
                                lemma_merged_byte_bits(b3, p, q, on3);
                            }
                        }
                    }
                }
            },
            PixelEncoding::PackedByte => {
                proof {
                    assert(d.width == 320 && d.height <= 240);
                }
                let off = y * d.width + x;
                proof {
                    assert(off < PACKED_SIZE);
                }
                self.packed_memory[off] = cv;
                proof {
                    assert forall|px: int, py: int| old(self).in_bounds(px, py) implies self.pixel(
                        px,
                        py,
                    ) == (if px == x as int && py == y as int {
                        color.value()
                    } else {
                        old(self).pixel(px, py)
                    }) by {
                        if !(px == x as int && py == y as int) {
                            assert(py * 320 + px != y as int * 320 + x as int);
                        }
                    }
                }
            },
            PixelEncoding::TextCell => {
                proof {
                    assert(false);
                }
            },
        }
    }

    /// Fills the entire visible region of the active graphics mode with
    /// `color`, leaving every in-bounds pixel at that value.  Under the
    /// planar encoding one store paints eight pixels at once: the Bit Mask
    /// register is programmed with all bits selected.
    pub fn clear_screen(&mut self, color: Color16)
        requires
            old(self).wf(),
            old(self).graphics_active(),
        ensures
            final(self).wf(),
            final(self).graphics_active(),
            final(self).draw_frame(*old(self)),
            forall|px: int, py: int|
                old(self).in_bounds(px, py) ==> final(self).pixel(px, py) == color.value(),
            old(self).current_descriptor().encoding is Planar4Bit ==> final(self).graphics_controller@ == old(self).graphics_controller@.update(
                GraphicsControllerIndex::SetReset.index(),
                color.value(),
            ).update(GraphicsControllerIndex::EnableSetReset.index(), 0x0F).update(
                GraphicsControllerIndex::BitMask.index(),
                0xFF,
            ) && final(self).write_log@ == old(self).write_log@ + seq![
                RegisterWrite::GraphicsController(GraphicsControllerIndex::SetReset, color.value()),
                RegisterWrite::GraphicsController(GraphicsControllerIndex::EnableSetReset, 0x0F),
                RegisterWrite::GraphicsController(GraphicsControllerIndex::BitMask, 0xFF),
            ] && final(self).packed_memory@ == old(self).packed_memory@,
            old(self).current_descriptor().encoding is PackedByte ==> final(self).registers_unchanged_from(*old(self)) && final(self).write_log@ == old(self).write_log@
                && final(self).plane0@ == old(self).plane0@ && final(self).plane1@ == old(self).plane1@ && final(self).plane2@ == old(self).plane2@ && final(self).plane3@ == old(self).plane3@ && forall|i: int|
                old(self).current_descriptor().width * old(self).current_descriptor().height <= i
                    < PACKED_SIZE ==> final(self).packed_memory@[i] == old(self).packed_memory@[i],
    {
        let mode = self.active_mode.unwrap();
        let d = mode.to_descriptor();
        let cv = color.to_u8();
        match d.encoding {
            PixelEncoding::Planar4Bit => {
                self.write_graphics_controller(GraphicsControllerIndex::SetReset, cv);
                self.write_graphics_controller(GraphicsControllerIndex::EnableSetReset, 0x0F);
                self.write_graphics_controller(GraphicsControllerIndex::BitMask, 0xFF);
                let on0 = cv & 0x01 != 0;
                let on1 = cv & 0x02 != 0;
                let on2 = cv & 0x04 != 0;
                let on3 = cv & 0x08 != 0;
                let f0: u8 = if on0 {
                    0xFF
                } else {
                    0
                };
                let f1: u8 = if on1 {
                    0xFF
                } else {
                    0
                };
                let f2: u8 = if on2 {
                    0xFF
                } else {
                    0
                };
                let f3: u8 = if on3 {
                    0xFF
                } else {
                    0
                };
                let ghost mid = *self;
                let mut off: usize = 0;
                while off < PLANE_SIZE
                    invariant
                        self.wf(),
                        off <= PLANE_SIZE,
                        forall|i: int|
                            0 <= i < off ==> self.plane0@[i] == f0 && self.plane1@[i] == f1
                                && self.plane2@[i] == f2 && self.plane3@[i] == f3,
                        self.registers_unchanged_from(mid),
                        self.write_log@ == mid.write_log@,
                        self.packed_memory@ == mid.packed_memory@,
                        self.active_mode == mid.active_mode,
                    decreases PLANE_SIZE - off,
                {
                    self.plane0[off] = f0;
                    self.plane1[off] = f1;
                    self.plane2[off] = f2;
                    self.plane3[off] = f3;
                    off = off + 1;
                }
                proof {
                    lemma_low_bits(cv);
                    assert forall|px: int, py: int| old(self).in_bounds(px, py) implies self.pixel(
                        px,
                        py,
                    ) == color.value() by {
                        let q = planar_bit(px);
                        let qoff = planar_offset(px, py);
                        assert(0 <= qoff < PLANE_SIZE);
                        assert(q < 8) by {
                            lemma_fundamental_div_mod(px, 8);
                        }
                        lemma_fill_bit(q, on0);
                        lemma_fill_bit(q, on1);
                        lemma_fill_bit(q, on2);
                        lemma_fill_bit(q, on3);
                        lemma_nibble_value(cv);
                    }
                }
            },
            PixelEncoding::PackedByte => {
                proof {
                    assert(d.width == 320 && d.height <= 240);
                }
                let size = d.width * d.height;
                let ghost mid = *self;
                let mut off: usize = 0;
                while off < size
                    invariant
                        self.wf(),
                        size == d.width * d.height <= PACKED_SIZE,
                        off <= size,
                        forall|i: int| 0 <= i < off ==> self.packed_memory@[i] == cv,
                        forall|i: int|
                            off <= i < PACKED_SIZE ==> self.packed_memory@[i]
                                == mid.packed_memory@[i],
                        self.registers_unchanged_from(mid),
                        self.write_log@ == mid.write_log@,
                        self.plane0@ == mid.plane0@,
                        self.plane1@ == mid.plane1@,
                        self.plane2@ == mid.plane2@,
                        self.plane3@ == mid.plane3@,
                        self.active_mode == mid.active_mode,
                    decreases size - off,
                {
                    self.packed_memory[off] = cv;
                    off = off + 1;
                }
                proof {
                    assert forall|px: int, py: int| old(self).in_bounds(px, py) implies self.pixel(
                        px,
                        py,
                    ) == color.value() by {
                        assert(py * 320 + px < 320 * d.height);
                    }
                }
            },
            PixelEncoding::TextCell => {
                proof {
                    assert(false);
                }
            },
        }
    }

    /// Reads the color value of pixel (x, y) under the active graphics
    /// mode, or `None` when the coordinate lies outside the resolution —
    /// an out-of-bounds read is never attempted.
    pub fn read_pixel(&self, x: usize, y: usize) -> (r: Option<u8>)
        requires
            self.wf(),
            self.graphics_active(),
        ensures
            self.in_bounds(x as int, y as int) ==> r == Some(self.pixel(x as int, y as int)),
            !self.in_bounds(x as int, y as int) ==> r is None,
    {
        let mode = self.active_mode.unwrap();
        let d = mode.to_descriptor();
        if x >= d.width || y >= d.height {
            return None;
        }
        match d.encoding {
            PixelEncoding::Planar4Bit => {
                let shift: u8 = (x % 8) as u8;
                let p: u8 = 7 - shift;
                let off = y * 80 + x / 8;
                proof {
                    assert(d.width == 640 && d.height == 480);
                    assert(off == planar_offset(x as int, y as int));
                    assert(off < PLANE_SIZE);
                    assert(p == planar_bit(x as int));
                }
                let b0 = (self.plane0[off] >> p) & 1;
                let b1 = (self.plane1[off] >> p) & 1;
                let b2 = (self.plane2[off] >> p) & 1;
                let b3 = (self.plane3[off] >> p) & 1;
                proof {
                    lemma_bit_le_one(self.plane0@[off as int], p);
                    lemma_bit_le_one(self.plane1@[off as int], p);
                    lemma_bit_le_one(self.plane2@[off as int], p);
                    lemma_bit_le_one(self.plane3@[off as int], p);
                }
                Some(b0 + 2 * b1 + 4 * b2 + 8 * b3)
            },
            PixelEncoding::PackedByte => {
                proof {
                    assert(d.width == 320 && d.height <= 240);
                }
                let off = y * d.width + x;
                proof {
                    assert(off < PACKED_SIZE);
                }
                Some(self.packed_memory[off])
            },
            PixelEncoding::TextCell => {
                proof {
                    assert(false);
                }
                None
            },
        }
    }
}

/// A sequence is a prefix of itself.
proof fn lemma_prefix_reflexive(a: Seq<RegisterWrite>)
    ensures
        a.is_prefix_of(a),
{
    assert(a =~= a.subrange(0, a.len() as int));
}

/// Prefixes chain: a prefix of a prefix is a prefix.
proof fn lemma_prefix_transitive(a: Seq<RegisterWrite>, b: Seq<RegisterWrite>, c: Seq<
    RegisterWrite,
>)
    requires
        a.is_prefix_of(b),
        b.is_prefix_of(c),
    ensures
        a.is_prefix_of(c),
{
    assert forall|i: int| 0 <= i < a.len() implies a[i] == c.subrange(0, a.len() as int)[i] by {
        assert(a[i] == b.subrange(0, a.len() as int)[i]);
        assert(b[i] == c.subrange(0, b.len() as int)[i]);
    }
    assert(a =~= c.subrange(0, a.len() as int));
}

/// Drawing frames chain across consecutive drawing calls.
proof fn lemma_draw_frame_transitive(a: VgaDevice, b: VgaDevice, c: VgaDevice)
    requires
        b.draw_frame(a),
        c.draw_frame(b),
    ensures
        c.draw_frame(a),
{
    lemma_prefix_transitive(a.write_log@, b.write_log@, c.write_log@);
}

/// Does drawing the glyph for `code` at (x, y) paint the pixel (px, py)?
/// Exactly the pixels of the 8x8 box whose font bitmap bit is one are
/// painted; everything else is left untouched — there is no implicit
/// background fill.
pub open spec fn glyph_paints(f: Font, code: int, x: int, y: int, px: int, py: int) -> bool {
    &&& x <= px < x + 8
    &&& y <= py < y + 8
    &&& bit_of(f.glyph_row(code, py - y), (7 - (px - x)) as u8) == 1
}

/// The glyph-row bit test the drawing loop performs selects exactly the
/// bit of the column, counted with the most significant bit leftmost.
proof fn lemma_glyph_bit(b: u8, c: u8)
    by (bit_vector)
    requires
        c < 8,
    ensures
        ((b & (0x80u8 >> c)) != 0) == (bit_of(b, (7 - c) as u8) == 1),
{
}

impl VgaDevice {
    /// Sets the pixel at signed coordinates (x, y), clipping silently when
    /// the point lies outside the active resolution.
    fn plot(&mut self, x: i128, y: i128, color: Color16)
        requires
            old(self).wf(),
            old(self).graphics_active(),
        ensures
            final(self).wf(),
            final(self).graphics_active(),
            final(self).draw_frame(*old(self)),
            forall|px: int, py: int|
                old(self).in_bounds(px, py) ==> final(self).pixel(px, py) == (if px == x as int
                    && py == y as int {
                    color.value()
                } else {
                    old(self).pixel(px, py)
                }),
    {
        let mode = self.active_mode.unwrap();
        let d = mode.to_descriptor();
        if x >= 0 && y >= 0 && x < d.width as i128 && y < d.height as i128 {
            self.set_pixel(x as usize, y as usize, color);
        } else {
            proof {
                lemma_prefix_reflexive(self.write_log@);
            }
        }
    }

    /// Draws the Bresenham line from `start` to `end`: every point of
    /// `line_points` that lies inside the active resolution is set to
    /// `color`, both endpoints included, and no other pixel changes.
    /// Points outside the resolution are clipped, never an error.
    pub fn draw_line(&mut self, start: (isize, isize), end: (isize, isize), color: Color16)
        requires
            old(self).wf(),
            old(self).graphics_active(),
        ensures
            final(self).wf(),
            final(self).graphics_active(),
            final(self).draw_frame(*old(self)),
            forall|px: int, py: int|
                old(self).in_bounds(px, py) ==> final(self).pixel(px, py) == (if line_points(
                    (start.0 as int, start.1 as int),
                    (end.0 as int, end.1 as int),
                ).contains((px, py)) {
                    color.value()
                } else {
                    old(self).pixel(px, py)
                }),
    {
        let x0: i128 = start.0 as i128;
        let y0: i128 = start.1 as i128;
        let x1: i128 = end.0 as i128;
        let y1: i128 = end.1 as i128;
        let dx: i128 = if x1 >= x0 {
            x1 - x0
        } else {
            x0 - x1
        };
        let dy: i128 = if y1 >= y0 {
            y1 - y0
        } else {
            y0 - y1
        };
        let sx: i128 = if x1 > x0 {
            1
        } else if x1 < x0 {
            -1
        } else {
            0
        };
        let sy: i128 = if y1 > y0 {
            1
        } else if y1 < y0 {
            -1
        } else {
            0
        };
        let x_major = dx >= dy;
        let dmaj: i128 = if x_major {
            dx
        } else {
            dy
        };
        let dmin: i128 = if x_major {
            dy
        } else {
            dx
        };
        let ghost p0 = (start.0 as int, start.1 as int);
        let ghost p1 = (end.0 as int, end.1 as int);

        let mut x = x0;
        let mut y = y0;
        let mut err: i128 = 0;
        self.plot(x, y, color);
        proof {
            assert(line_point_at(p0, sx as int, sy as int, dmaj as int, dmin as int, x_major, 0)
                == p0);
        }
        let mut k: i128 = 0;
        while k < dmaj
            invariant
                self.wf(),
                self.graphics_active(),
                self.draw_frame(*old(self)),
                0 <= k <= dmaj,
                p0 == (start.0 as int, start.1 as int),
                p1 == (end.0 as int, end.1 as int),
                dx == magnitude(p1.0 - p0.0),
                dy == magnitude(p1.1 - p0.1),
                sx == sign(p1.0 - p0.0),
                sy == sign(p1.1 - p0.1),
                x_major == (dx >= dy),
                dmaj == (if x_major {
                    dx as int
                } else {
                    dy as int
                }),
                dmin == (if x_major {
                    dy as int
                } else {
                    dx as int
                }),
                (x as int, y as int, err as int) == line_state(
                    p0,
                    sx as int,
                    sy as int,
                    dmaj as int,
                    dmin as int,
                    x_major,
                    k as nat,
                ),
                forall|px: int, py: int|
                    old(self).in_bounds(px, py) ==> self.pixel(px, py) == (if (exists|i: int|
                        0 <= i <= k && line_point_at(
                            p0,
                            sx as int,
                            sy as int,
                            dmaj as int,
                            dmin as int,
                            x_major,
                            i,
                        ) == (px, py)) {
                        color.value()
                    } else {
                        old(self).pixel(px, py)
                    }),
            decreases dmaj - k,
        {
            proof {
                crate::line::lemma_line_state_bounds(
                    p0,
                    sx as int,
                    sy as int,
                    dmaj as int,
                    dmin as int,
                    x_major,
                    k as nat,
                );
            }
            let ghost mid = *self;
            err = err + dmin;
            if x_major {
                x = x + sx;
                if 2 * err >= dmaj {
                    y = y + sy;
                    err = err - dmaj;
                }
            } else {
                y = y + sy;
                if 2 * err >= dmaj {
                    x = x + sx;
                    err = err - dmaj;
                }
            }
            k = k + 1;
            proof {
                assert((x as int, y as int, err as int) == line_state(
                    p0,
                    sx as int,
                    sy as int,
                    dmaj as int,
                    dmin as int,
                    x_major,
                    k as nat,
                ));
            }
            self.plot(x, y, color);
            proof {
                lemma_draw_frame_transitive(*old(self), mid, *self);
                assert forall|px: int, py: int| old(self).in_bounds(px, py) implies self.pixel(
                    px,
                    py,
                ) == (if (exists|i: int|
                    0 <= i <= k && line_point_at(
                        p0,
                        sx as int,
                        sy as int,
                        dmaj as int,
                        dmin as int,
                        x_major,
                        i,
                    ) == (px, py)) {
                    color.value()
                } else {
                    old(self).pixel(px, py)
                }) by {
                    let cur = line_point_at(
                        p0,
                        sx as int,
                        sy as int,
                        dmaj as int,
                        dmin as int,
                        x_major,
                        k as int,
                    );
                    if px == cur.0 && py == cur.1 {
                        assert(line_point_at(
                            p0,
                            sx as int,
                            sy as int,
                            dmaj as int,
                            dmin as int,
                            x_major,
                            k as int,
                        ) == (px, py));
                    }
                }
            }
        }
        proof {
            assert forall|px: int, py: int| old(self).in_bounds(px, py) implies self.pixel(px, py)
                == (if line_points(p0, p1).contains((px, py)) {
                color.value()
            } else {
                old(self).pixel(px, py)
            }) by {
                if line_points(p0, p1).contains((px, py)) {
                    let j = choose|j: int|
                        0 <= j < line_points(p0, p1).len() && line_points(p0, p1)[j] == (px, py);
                    assert(line_point_at(
                        p0,
                        sx as int,
                        sy as int,
                        dmaj as int,
                        dmin as int,
                        x_major,
                        j,
                    ) == (px, py));
                } else {
                    if exists|i: int|
                        0 <= i <= dmaj && line_point_at(
                            p0,
                            sx as int,
                            sy as int,
                            dmaj as int,
                            dmin as int,
                            x_major,
                            i,
                        ) == (px, py) {
                        let i = choose|i: int|
                            0 <= i <= dmaj && line_point_at(
                                p0,
                                sx as int,
                                sy as int,
                                dmaj as int,
                                dmin as int,
                                x_major,
                                i,
                            ) == (px, py);
                        assert(line_points(p0, p1)[i] == (px, py));
                        assert(line_points(p0, p1).contains((px, py)));
                    }
                }
            }
        }
    }

    /// Draws the glyph for `ch` at (x, y): every pixel of the 8x8 box whose
    /// font bitmap bit is one is painted `color`; all other pixels keep
    /// their previous value.  A character code with no glyph entry draws
    /// the blank glyph, painting nothing.  Pixels outside the resolution
    /// are clipped.
    pub fn draw_character(&mut self, x: usize, y: usize, ch: char, font: &Font, color: Color16)
        requires
            old(self).wf(),
            old(self).graphics_active(),
        ensures
            final(self).wf(),
            final(self).graphics_active(),
            final(self).draw_frame(*old(self)),
            forall|px: int, py: int|
                old(self).in_bounds(px, py) ==> final(self).pixel(px, py) == (if glyph_paints(
                    *font,
                    ch as int,
                    x as int,
                    y as int,
                    px,
                    py,
                ) {
                    color.value()
                } else {
                    old(self).pixel(px, py)
                }),
    {
        let code = ch as u32 as usize;
        let mode = self.active_mode.unwrap();
        let d = mode.to_descriptor();
        if x >= d.width || y >= d.height {
            proof {
                lemma_prefix_reflexive(self.write_log@);
            }
            return ;
        }
        let mut row: usize = 0;
        while row < 8
            invariant
                self.wf(),
                self.graphics_active(),
                self.draw_frame(*old(self)),
                row <= 8,
                code == ch as int,
                x < old(self).current_descriptor().width,
                y < old(self).current_descriptor().height,
                forall|px: int, py: int|
                    old(self).in_bounds(px, py) ==> self.pixel(px, py) == (if glyph_paints(
                        *font,
                        ch as int,
                        x as int,
                        y as int,
                        px,
                        py,
                    ) && py - y < row {
                        color.value()
                    } else {
                        old(self).pixel(px, py)
                    }),
            decreases 8 - row,
        {
            let bits = font.lookup_row(code, row);
            let mut col: usize = 0;
            while col < 8
                invariant
                    self.wf(),
                    self.graphics_active(),
                    self.draw_frame(*old(self)),
                    row < 8,
                    col <= 8,
                    code == ch as int,
                    x < old(self).current_descriptor().width,
                    y < old(self).current_descriptor().height,
                    bits == font.glyph_row(code as int, row as int),
                    forall|px: int, py: int|
                        old(self).in_bounds(px, py) ==> self.pixel(px, py) == (if glyph_paints(
                            *font,
                            ch as int,
                            x as int,
                            y as int,
                            px,
                            py,
                        ) && (py - y < row || (py - y == row && px - x < col)) {
                            color.value()
                        } else {
                            old(self).pixel(px, py)
                        }),
                decreases 8 - col,
            {
                let ghost mid = *self;
                let cb: u8 = col as u8;
                proof {
                    lemma_glyph_bit(bits, cb);
                }
                if bits & (0x80u8 >> cb) != 0 {
                    self.set_pixel(x + col, y + row, color);
                    proof {
                        lemma_draw_frame_transitive(*old(self), mid, *self);
                    }
                }
                col = col + 1;
            }
            row = row + 1;
        }
    }
}

} // verus!
