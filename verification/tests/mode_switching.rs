use vga::configurations::{mode_640x480x16_configuration, VgaConfiguration};
use vga::device::VgaDevice;
use vga::modes::DisplayMode;
use vga::registers::{
    AttributeControllerIndex, CrtcControllerIndex, GraphicsControllerIndex, RegisterWrite,
    SequencerIndex,
};

#[test]
fn new_device_power_on_state() {
    let d = VgaDevice::new();
    assert_eq!(d.active_mode, None);
    assert!(d.write_log.is_empty());
    assert_eq!(d.miscellaneous_output, 0);
    assert!(d.sequencer.iter().all(|&v| v == 0));
    assert!(d.crtc_controller.iter().all(|&v| v == 0));
    assert!(d.graphics_controller.iter().all(|&v| v == 0));
    assert!(d.attribute_controller.iter().all(|&v| v == 0));
    assert!(!d.attribute_expects_data);
}

/// `apply` writes exactly the entries of the configuration, once each, in
/// the fixed group order [miscellaneous, sequencer, CRTC, graphics,
/// attribute], each group in table order.
#[test]
fn apply_writes_exactly_the_table_in_order() {
    let config = mode_640x480x16_configuration();
    let mut d = VgaDevice::new();
    d.apply(&config);

    let mut expected = vec![RegisterWrite::MiscellaneousOutput(config.miscellaneous_output)];
    for &(i, v) in config.sequencer_registers.iter() {
        expected.push(RegisterWrite::Sequencer(i, v));
    }
    for &(i, v) in config.crtc_controller_registers.iter() {
        expected.push(RegisterWrite::CrtcController(i, v));
    }
    for &(i, v) in config.graphics_controller_registers.iter() {
        expected.push(RegisterWrite::GraphicsController(i, v));
    }
    for &(i, v) in config.attribute_controller_registers.iter() {
        expected.push(RegisterWrite::AttributeController(i, v));
    }
    assert_eq!(d.write_log, expected);
    assert_eq!(d.write_log.len(), 1 + 5 + 25 + 9 + 21);
    assert_eq!(d.write_log[0], RegisterWrite::MiscellaneousOutput(0xE3));
    assert_eq!(
        d.write_log[1],
        RegisterWrite::Sequencer(SequencerIndex::SequencerReset, 0x03)
    );
    assert_eq!(
        d.write_log[6],
        RegisterWrite::CrtcController(CrtcControllerIndex::HorizontalTotal, 0x5F)
    );
    assert_eq!(
        d.write_log[31],
        RegisterWrite::GraphicsController(GraphicsControllerIndex::SetReset, 0x00)
    );
    assert_eq!(
        d.write_log[60],
        RegisterWrite::AttributeController(AttributeControllerIndex::ColorSelect, 0x00)
    );
}

/// A register not named by the applied table keeps its previous value.
#[test]
fn apply_partial_table_preserves_other_registers() {
    let mut d = VgaDevice::new();
    d.set_mode(DisplayMode::Graphics640x480x16);
    let before_crtc = d.crtc_controller.clone();

    let partial = VgaConfiguration {
        miscellaneous_output: 0x11,
        sequencer_registers: vec![(SequencerIndex::ClockingMode, 0x22)],
        crtc_controller_registers: vec![],
        graphics_controller_registers: vec![(GraphicsControllerIndex::BitMask, 0x33)],
        attribute_controller_registers: vec![],
    };
    d.apply(&partial);

    assert_eq!(d.miscellaneous_output, 0x11);
    assert_eq!(d.sequencer[1], 0x22);
    assert_eq!(d.graphics_controller[8], 0x33);
    // untouched registers retain the values the mode left behind
    assert_eq!(d.sequencer[0], 0x03);
    assert_eq!(d.sequencer[4], 0x06);
    assert_eq!(d.crtc_controller, before_crtc);
}

/// When one table names a register twice, the later entry wins.
#[test]
fn apply_later_entry_wins() {
    let mut d = VgaDevice::new();
    let repeated = VgaConfiguration {
        miscellaneous_output: 0x00,
        sequencer_registers: vec![
            (SequencerIndex::PlaneMask, 0x0A),
            (SequencerIndex::PlaneMask, 0x0B),
        ],
        crtc_controller_registers: vec![],
        graphics_controller_registers: vec![],
        attribute_controller_registers: vec![],
    };
    d.apply(&repeated);
    assert_eq!(d.sequencer[2], 0x0B);
    assert_eq!(d.write_log.len(), 3);
}

#[test]
fn set_mode_programs_registers_and_descriptor() {
    let mut d = VgaDevice::new();
    d.set_mode(DisplayMode::Graphics640x480x16);
    assert_eq!(d.active_mode, Some(DisplayMode::Graphics640x480x16));
    assert_eq!(d.miscellaneous_output, 0xE3);
    assert_eq!(d.sequencer, vec![0x03, 0x01, 0x08, 0x00, 0x06]);
    assert_eq!(d.graphics_controller[5], 0x00);
    assert_eq!(d.graphics_controller[6], 0x05);
    assert_eq!(d.attribute_controller[16], 0x01);
    assert_eq!(d.crtc_controller[24], 0xFF);
}

/// Switching to a mode, away, and back yields register state and
/// descriptor identical to a single application from power-on.
#[test]
fn set_mode_reapplication_is_idempotent() {
    let mut travelled = VgaDevice::new();
    travelled.set_mode(DisplayMode::Graphics640x480x16);
    travelled.set_mode(DisplayMode::Text80x25);
    travelled.set_mode(DisplayMode::Graphics640x480x16);

    let mut fresh = VgaDevice::new();
    fresh.set_mode(DisplayMode::Graphics640x480x16);

    assert_eq!(travelled.miscellaneous_output, fresh.miscellaneous_output);
    assert_eq!(travelled.sequencer, fresh.sequencer);
    assert_eq!(travelled.crtc_controller, fresh.crtc_controller);
    assert_eq!(travelled.graphics_controller, fresh.graphics_controller);
    assert_eq!(travelled.attribute_controller, fresh.attribute_controller);
    assert_eq!(travelled.active_mode, fresh.active_mode);
    assert_eq!(
        travelled.active_mode.unwrap().to_descriptor(),
        fresh.active_mode.unwrap().to_descriptor()
    );
}

/// The attribute flip-flop ends every mode application in its
/// index-expecting state.
#[test]
fn attribute_flip_flop_reset_by_apply() {
    let mut d = VgaDevice::new();
    d.attribute_expects_data = true;
    d.reset_attribute_flip_flop();
    assert!(!d.attribute_expects_data);
    let mut d = VgaDevice::new();
    d.attribute_expects_data = true;
    d.apply(&mode_640x480x16_configuration());
    assert!(!d.attribute_expects_data);
}
