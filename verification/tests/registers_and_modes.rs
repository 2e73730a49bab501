use vga::colors::Color16;
use vga::configurations::{
    mode_320x200x256_configuration, mode_320x240x256_configuration, mode_40x25_configuration,
    mode_40x50_configuration, mode_640x480x16_configuration, mode_80x25_configuration,
};
use vga::modes::{DisplayMode, PixelEncoding};
use vga::registers::{
    AttributeControllerIndex, CrtcControllerIndex, GraphicsControllerIndex, SequencerIndex,
};

#[test]
fn color16_values() {
    assert_eq!(Color16::Black.to_u8(), 0);
    assert_eq!(Color16::Blue.to_u8(), 1);
    assert_eq!(Color16::Green.to_u8(), 2);
    assert_eq!(Color16::Cyan.to_u8(), 3);
    assert_eq!(Color16::Red.to_u8(), 4);
    assert_eq!(Color16::Magenta.to_u8(), 5);
    assert_eq!(Color16::Brown.to_u8(), 6);
    assert_eq!(Color16::LightGrey.to_u8(), 7);
    assert_eq!(Color16::DarkGrey.to_u8(), 8);
    assert_eq!(Color16::LightBlue.to_u8(), 9);
    assert_eq!(Color16::LightGreen.to_u8(), 10);
    assert_eq!(Color16::LightCyan.to_u8(), 11);
    assert_eq!(Color16::LightRed.to_u8(), 12);
    assert_eq!(Color16::Pink.to_u8(), 13);
    assert_eq!(Color16::Yellow.to_u8(), 14);
    assert_eq!(Color16::White.to_u8(), 15);
}

#[test]
fn register_index_values() {
    assert_eq!(SequencerIndex::SequencerReset.to_index(), 0);
    assert_eq!(SequencerIndex::MemoryMode.to_index(), 4);
    assert_eq!(CrtcControllerIndex::HorizontalTotal.to_index(), 0);
    assert_eq!(CrtcControllerIndex::MaximumScanLine.to_index(), 9);
    assert_eq!(CrtcControllerIndex::LineCompare.to_index(), 24);
    assert_eq!(GraphicsControllerIndex::SetReset.to_index(), 0);
    assert_eq!(GraphicsControllerIndex::BitMask.to_index(), 8);
    assert_eq!(AttributeControllerIndex::PaletteRegister0.to_index(), 0);
    assert_eq!(AttributeControllerIndex::PaletteRegisterF.to_index(), 15);
    assert_eq!(AttributeControllerIndex::ColorSelect.to_index(), 20);
}

#[test]
fn mode_descriptors() {
    let d = DisplayMode::Text40x25.to_descriptor();
    assert_eq!(
        (d.base_address, d.width, d.height, d.encoding),
        (0xB8000, 40, 25, PixelEncoding::TextCell)
    );
    let d = DisplayMode::Text40x50.to_descriptor();
    assert_eq!(
        (d.base_address, d.width, d.height, d.encoding),
        (0xB8000, 40, 50, PixelEncoding::TextCell)
    );
    let d = DisplayMode::Text80x25.to_descriptor();
    assert_eq!(
        (d.base_address, d.width, d.height, d.encoding),
        (0xB8000, 80, 25, PixelEncoding::TextCell)
    );
    let d = DisplayMode::Graphics640x480x16.to_descriptor();
    assert_eq!(
        (d.base_address, d.width, d.height, d.encoding),
        (0xA0000, 640, 480, PixelEncoding::Planar4Bit)
    );
    let d = DisplayMode::Graphics320x200x256.to_descriptor();
    assert_eq!(
        (d.base_address, d.width, d.height, d.encoding),
        (0xA0000, 320, 200, PixelEncoding::PackedByte)
    );
    let d = DisplayMode::Graphics320x240x256.to_descriptor();
    assert_eq!(
        (d.base_address, d.width, d.height, d.encoding),
        (0xA0000, 320, 240, PixelEncoding::PackedByte)
    );
}

#[test]
fn configuration_tables_cover_groups() {
    for c in [
        mode_40x25_configuration(),
        mode_40x50_configuration(),
        mode_80x25_configuration(),
        mode_640x480x16_configuration(),
        mode_320x200x256_configuration(),
        mode_320x240x256_configuration(),
    ] {
        assert_eq!(c.sequencer_registers.len(), 5);
        assert_eq!(c.crtc_controller_registers.len(), 25);
        assert_eq!(c.graphics_controller_registers.len(), 9);
        assert_eq!(c.attribute_controller_registers.len(), 21);
        for (j, e) in c.sequencer_registers.iter().enumerate() {
            assert_eq!(e.0.to_index() as usize, j);
        }
        for (j, e) in c.crtc_controller_registers.iter().enumerate() {
            assert_eq!(e.0.to_index() as usize, j);
        }
        for (j, e) in c.graphics_controller_registers.iter().enumerate() {
            assert_eq!(e.0.to_index() as usize, j);
        }
        for (j, e) in c.attribute_controller_registers.iter().enumerate() {
            assert_eq!(e.0.to_index() as usize, j);
        }
    }
}

#[test]
fn configuration_values() {
    let c = mode_640x480x16_configuration();
    assert_eq!(c.miscellaneous_output, 0xE3);
    assert_eq!(
        c.sequencer_registers[1],
        (SequencerIndex::ClockingMode, 0x01)
    );
    assert_eq!(
        c.sequencer_registers[4],
        (SequencerIndex::MemoryMode, 0x06)
    );
    assert_eq!(
        c.crtc_controller_registers[9],
        (CrtcControllerIndex::MaximumScanLine, 0x40)
    );
    assert_eq!(
        c.graphics_controller_registers[6],
        (GraphicsControllerIndex::Miscellaneous, 0x05)
    );
    assert_eq!(
        c.attribute_controller_registers[16],
        (AttributeControllerIndex::ModeControl, 0x01)
    );

    let c = mode_80x25_configuration();
    assert_eq!(c.miscellaneous_output, 0x67);
    assert_eq!(
        c.sequencer_registers[1],
        (SequencerIndex::ClockingMode, 0x00)
    );
    assert_eq!(
        c.crtc_controller_registers[19],
        (CrtcControllerIndex::Offset, 0x28)
    );
    assert_eq!(
        c.attribute_controller_registers[8],
        (AttributeControllerIndex::PaletteRegister8, 0x38)
    );

    let c = mode_320x200x256_configuration();
    assert_eq!(c.miscellaneous_output, 0x63);
    assert_eq!(
        c.graphics_controller_registers[5],
        (GraphicsControllerIndex::GraphicsMode, 0x40)
    );
    assert_eq!(
        c.attribute_controller_registers[6],
        (AttributeControllerIndex::PaletteRegister6, 0x06)
    );

    let c = mode_40x25_configuration();
    assert_eq!(c.miscellaneous_output, 0x67);
    assert_eq!(
        c.crtc_controller_registers[0],
        (CrtcControllerIndex::HorizontalTotal, 0x2D)
    );

    let c = mode_40x50_configuration();
    assert_eq!(
        c.crtc_controller_registers[9],
        (CrtcControllerIndex::MaximumScanLine, 0x47)
    );

    let c = mode_320x240x256_configuration();
    assert_eq!(c.miscellaneous_output, 0x63);
    assert_eq!(
        c.crtc_controller_registers[17],
        (CrtcControllerIndex::VerticalSyncEnd, 0xAC)
    );
}
