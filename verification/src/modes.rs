//! Display modes and their memory-model descriptors.
//!
//! Each supported mode is bound to one register configuration table and to a
//! memory model: the framebuffer window's base physical address, the
//! resolution in mode-native units, and the pixel encoding.

use vstd::prelude::*;

verus! {

use crate::configurations::VgaConfiguration;
use crate::configurations::VgaConfigurationView;
use crate::configurations::configuration_covers_groups;
use crate::configurations::lemma_mode_40x25_configuration_covers;
use crate::configurations::lemma_mode_40x50_configuration_covers;
use crate::configurations::lemma_mode_80x25_configuration_covers;
use crate::configurations::lemma_mode_640x480x16_configuration_covers;
use crate::configurations::lemma_mode_320x200x256_configuration_covers;
use crate::configurations::lemma_mode_320x240x256_configuration_covers;
use crate::configurations::mode_40x25_configuration;
use crate::configurations::mode_40x25_configuration_spec;
use crate::configurations::mode_40x50_configuration;
use crate::configurations::mode_40x50_configuration_spec;
use crate::configurations::mode_80x25_configuration;
use crate::configurations::mode_80x25_configuration_spec;
use crate::configurations::mode_640x480x16_configuration;
use crate::configurations::mode_640x480x16_configuration_spec;
use crate::configurations::mode_320x200x256_configuration;
use crate::configurations::mode_320x200x256_configuration_spec;
use crate::configurations::mode_320x240x256_configuration;
use crate::configurations::mode_320x240x256_configuration_spec;

/// Base physical address of the framebuffer window in text modes.
pub const TEXT_WINDOW_BASE: u32 = 0xB8000;

/// Base physical address of the framebuffer window in graphics modes.
pub const GRAPHICS_WINDOW_BASE: u32 = 0xA0000;

/// A supported display mode.
#[derive(Clone, Copy, Debug, PartialEq, Eq, Structural)]
pub enum DisplayMode {
    Text40x25,
    Text40x50,
    Text80x25,
    Graphics640x480x16,
    Graphics320x200x256,
    Graphics320x240x256,
}

/// How the bytes of the framebuffer window encode the visible contents.
#[derive(Clone, Copy, Debug, PartialEq, Eq, Structural)]
pub enum PixelEncoding {
    /// Two bytes per cell: character code, then attribute.
    TextCell,
    /// One byte per pixel.
    PackedByte,
    /// Each pixel's four color bits are spread across four bit planes; one
    /// byte address covers eight horizontal pixels.
    Planar4Bit,
}

/// The memory model of a display mode: framebuffer window base address,
/// resolution in mode-native units, and pixel encoding.
#[derive(Clone, Copy, Debug, PartialEq, Eq, Structural)]
pub struct ModeDescriptor {
    pub base_address: u32,
    pub width: usize,
    pub height: usize,
    pub encoding: PixelEncoding,
}

impl DisplayMode {
    /// The memory-model descriptor bound to this mode.
    pub open spec fn descriptor(self) -> ModeDescriptor {
        match self {
            DisplayMode::Text40x25 => ModeDescriptor {
                base_address: TEXT_WINDOW_BASE,
                width: 40,
                height: 25,
                encoding: PixelEncoding::TextCell,
            },
            DisplayMode::Text40x50 => ModeDescriptor {
                base_address: TEXT_WINDOW_BASE,
                width: 40,
                height: 50,
                encoding: PixelEncoding::TextCell,
            },
            DisplayMode::Text80x25 => ModeDescriptor {
                base_address: TEXT_WINDOW_BASE,
                width: 80,
                height: 25,
                encoding: PixelEncoding::TextCell,
            },
            DisplayMode::Graphics640x480x16 => ModeDescriptor {
                base_address: GRAPHICS_WINDOW_BASE,
                width: 640,
                height: 480,
                encoding: PixelEncoding::Planar4Bit,
            },
            DisplayMode::Graphics320x200x256 => ModeDescriptor {
                base_address: GRAPHICS_WINDOW_BASE,
                width: 320,
                height: 200,
                encoding: PixelEncoding::PackedByte,
            },
            DisplayMode::Graphics320x240x256 => ModeDescriptor {
                base_address: GRAPHICS_WINDOW_BASE,
                width: 320,
                height: 240,
                encoding: PixelEncoding::PackedByte,
            },
        }
    }

    pub fn to_descriptor(self) -> (d: ModeDescriptor)
        ensures
            d == self.descriptor(),
    {
        match self {
            DisplayMode::Text40x25 => ModeDescriptor {
                base_address: TEXT_WINDOW_BASE,
                width: 40,
                height: 25,
                encoding: PixelEncoding::TextCell,
            },
            DisplayMode::Text40x50 => ModeDescriptor {
                base_address: TEXT_WINDOW_BASE,
                width: 40,
                height: 50,
                encoding: PixelEncoding::TextCell,
            },
            DisplayMode::Text80x25 => ModeDescriptor {
                base_address: TEXT_WINDOW_BASE,
                width: 80,
                height: 25,
                encoding: PixelEncoding::TextCell,
            },
            DisplayMode::Graphics640x480x16 => ModeDescriptor {
                base_address: GRAPHICS_WINDOW_BASE,
                width: 640,
                height: 480,
                encoding: PixelEncoding::Planar4Bit,
            },
            DisplayMode::Graphics320x200x256 => ModeDescriptor {
                base_address: GRAPHICS_WINDOW_BASE,
                width: 320,
                height: 200,
                encoding: PixelEncoding::PackedByte,
            },
            DisplayMode::Graphics320x240x256 => ModeDescriptor {
                base_address: GRAPHICS_WINDOW_BASE,
                width: 320,
                height: 240,
                encoding: PixelEncoding::PackedByte,
            },
        }
    }

    /// A mode whose framebuffer holds pixels rather than character cells.
    pub open spec fn is_graphics(self) -> bool {
        self.descriptor().encoding != PixelEncoding::TextCell
    }

    /// The register configuration table bound to this mode.
    pub open spec fn configuration_spec(self) -> VgaConfigurationView {
        match self {
            DisplayMode::Text40x25 => mode_40x25_configuration_spec(),
            DisplayMode::Text40x50 => mode_40x50_configuration_spec(),
            DisplayMode::Text80x25 => mode_80x25_configuration_spec(),
            DisplayMode::Graphics640x480x16 => mode_640x480x16_configuration_spec(),
            DisplayMode::Graphics320x200x256 => mode_320x200x256_configuration_spec(),
            DisplayMode::Graphics320x240x256 => mode_320x240x256_configuration_spec(),
        }
    }

    pub fn configuration(self) -> (c: VgaConfiguration)
        ensures
            c@ == self.configuration_spec(),
    {
        match self {
            DisplayMode::Text40x25 => mode_40x25_configuration(),
            DisplayMode::Text40x50 => mode_40x50_configuration(),
            DisplayMode::Text80x25 => mode_80x25_configuration(),
            DisplayMode::Graphics640x480x16 => mode_640x480x16_configuration(),
            DisplayMode::Graphics320x200x256 => mode_320x200x256_configuration(),
            DisplayMode::Graphics320x240x256 => mode_320x240x256_configuration(),
        }
    }
}

/// Every built-in mode table lists each register of every group exactly
/// once, in ascending index order.
pub proof fn lemma_mode_configuration_covers(m: DisplayMode)
    ensures
        configuration_covers_groups(m.configuration_spec()),
{
    match m {
        DisplayMode::Text40x25 => lemma_mode_40x25_configuration_covers(),
        DisplayMode::Text40x50 => lemma_mode_40x50_configuration_covers(),
        DisplayMode::Text80x25 => lemma_mode_80x25_configuration_covers(),
        DisplayMode::Graphics640x480x16 => lemma_mode_640x480x16_configuration_covers(),
        DisplayMode::Graphics320x200x256 => lemma_mode_320x200x256_configuration_covers(),
        DisplayMode::Graphics320x240x256 => lemma_mode_320x240x256_configuration_covers(),
    }
}

} // verus!
