//! Register configuration tables, one per supported display mode.
//!
//! Each table lists the miscellaneous output value and the ordered
//! (index, value) pairs for every register group.  The order within a group
//! is the order in which the hardware expects the writes; every table here
//! covers each group completely and in ascending index order.

use vstd::prelude::*;

verus! {

use crate::registers::AttributeControllerIndex;
use crate::registers::CrtcControllerIndex;
use crate::registers::GraphicsControllerIndex;
use crate::registers::SequencerIndex;
use crate::registers::ATTRIBUTE_REGISTER_COUNT;
use crate::registers::CRTC_REGISTER_COUNT;
use crate::registers::GRAPHICS_REGISTER_COUNT;
use crate::registers::SEQUENCER_REGISTER_COUNT;

/// A set of VGA register values for a display mode: the miscellaneous output
/// byte and the ordered (index, value) pairs for each register group.
pub struct VgaConfiguration {
    /// Value for the miscellaneous output register.
    pub miscellaneous_output: u8,
    /// Ordered values for the sequencer registers.
    pub sequencer_registers: Vec<(SequencerIndex, u8)>,
    /// Ordered values for the CRT controller registers.
    pub crtc_controller_registers: Vec<(CrtcControllerIndex, u8)>,
    /// Ordered values for the graphics controller registers.
    pub graphics_controller_registers: Vec<(GraphicsControllerIndex, u8)>,
    /// Ordered values for the attribute controller registers.
    pub attribute_controller_registers: Vec<(AttributeControllerIndex, u8)>,
}

/// The mathematical content of a `VgaConfiguration`.
#[verifier::ext_equal]
pub struct VgaConfigurationView {
    pub miscellaneous_output: u8,
    pub sequencer_registers: Seq<(SequencerIndex, u8)>,
    pub crtc_controller_registers: Seq<(CrtcControllerIndex, u8)>,
    pub graphics_controller_registers: Seq<(GraphicsControllerIndex, u8)>,
    pub attribute_controller_registers: Seq<(AttributeControllerIndex, u8)>,
}

impl View for VgaConfiguration {
    type V = VgaConfigurationView;

    open spec fn view(&self) -> VgaConfigurationView {
        VgaConfigurationView {
            miscellaneous_output: self.miscellaneous_output,
            sequencer_registers: self.sequencer_registers@,
            crtc_controller_registers: self.crtc_controller_registers@,
            graphics_controller_registers: self.graphics_controller_registers@,
            attribute_controller_registers: self.attribute_controller_registers@,
        }
    }
}

/// Holds when every group's table lists each register of that group exactly
/// once, in ascending index order.  All the built-in mode tables satisfy
/// this, which is what makes mode application independent of the register
/// state it starts from.
pub open spec fn configuration_covers_groups(c: VgaConfigurationView) -> bool {
    &&& c.sequencer_registers.len() == SEQUENCER_REGISTER_COUNT
    &&& forall|j: int|
        0 <= j < c.sequencer_registers.len() ==> (#[trigger] c.sequencer_registers[j]).0.index()
            == j
    &&& c.crtc_controller_registers.len() == CRTC_REGISTER_COUNT
    &&& forall|j: int|
        0 <= j < c.crtc_controller_registers.len() ==> (
        #[trigger] c.crtc_controller_registers[j]).0.index() == j
    &&& c.graphics_controller_registers.len() == GRAPHICS_REGISTER_COUNT
    &&& forall|j: int|
        0 <= j < c.graphics_controller_registers.len() ==> (
        #[trigger] c.graphics_controller_registers[j]).0.index() == j
    &&& c.attribute_controller_registers.len() == ATTRIBUTE_REGISTER_COUNT
    &&& forall|j: int|
        0 <= j < c.attribute_controller_registers.len() ==> (
        #[trigger] c.attribute_controller_registers[j]).0.index() == j
}

/// Register values for the 40x25 text mode.
pub open spec fn mode_40x25_configuration_spec() -> VgaConfigurationView {
    VgaConfigurationView {
        miscellaneous_output: 0x67u8,
        sequencer_registers: seq![
            (SequencerIndex::SequencerReset, 0x03u8),
            (SequencerIndex::ClockingMode, 0x08u8),
            (SequencerIndex::PlaneMask, 0x03u8),
            (SequencerIndex::CharacterFont, 0x00u8),
            (SequencerIndex::MemoryMode, 0x02u8),
        ],
        crtc_controller_registers: seq![
            (CrtcControllerIndex::HorizontalTotal, 0x2Du8),
            (CrtcControllerIndex::HorizontalDisplayEnableEnd, 0x27u8),
            (CrtcControllerIndex::HorizontalBlankingStart, 0x28u8),
            (CrtcControllerIndex::HorizontalBlankingEnd, 0x90u8),
            (CrtcControllerIndex::HorizontalSyncStart, 0x2Bu8),
            (CrtcControllerIndex::HorizontalSyncEnd, 0xA0u8),
            (CrtcControllerIndex::VerticalTotal, 0xBFu8),
            (CrtcControllerIndex::Overflow, 0x1Fu8),
            (CrtcControllerIndex::PresetRowScan, 0x00u8),
            (CrtcControllerIndex::MaximumScanLine, 0x4Fu8),
            (CrtcControllerIndex::TextCursorStart, 0x0Du8),
            (CrtcControllerIndex::TextCursorEnd, 0x0Eu8),
            (CrtcControllerIndex::StartAddressHigh, 0x00u8),
            (CrtcControllerIndex::StartAddressLow, 0x00u8),
            (CrtcControllerIndex::TextCursorLocationHigh, 0x00u8),
            (CrtcControllerIndex::TextCursorLocationLow, 0xA0u8),
            (CrtcControllerIndex::VerticalSyncStart, 0x9Cu8),
            (CrtcControllerIndex::VerticalSyncEnd, 0x8Eu8),
            (CrtcControllerIndex::VerticalDisplayEnableEnd, 0x8Fu8),
            (CrtcControllerIndex::Offset, 0x14u8),
            (CrtcControllerIndex::UnderlineLocation, 0x1Fu8),
            (CrtcControllerIndex::VerticalBlankingStart, 0x96u8),
            (CrtcControllerIndex::VerticalBlankingEnd, 0xB9u8),
            (CrtcControllerIndex::ModeControl, 0xA3u8),
            (CrtcControllerIndex::LineCompare, 0xFFu8),
        ],
        graphics_controller_registers: seq![
            (GraphicsControllerIndex::SetReset, 0x00u8),
            (GraphicsControllerIndex::EnableSetReset, 0x00u8),
            (GraphicsControllerIndex::ColorCompare, 0x00u8),
            (GraphicsControllerIndex::DataRotate, 0x00u8),
            (GraphicsControllerIndex::ReadPlaneSelect, 0x00u8),
            (GraphicsControllerIndex::GraphicsMode, 0x10u8),
            (GraphicsControllerIndex::Miscellaneous, 0x0Eu8),
            (GraphicsControllerIndex::ColorDontCare, 0x00u8),
            (GraphicsControllerIndex::BitMask, 0xFFu8),
        ],
        attribute_controller_registers: seq![
            (AttributeControllerIndex::PaletteRegister0, 0x00u8),
            (AttributeControllerIndex::PaletteRegister1, 0x01u8),
            (AttributeControllerIndex::PaletteRegister2, 0x02u8),
            (AttributeControllerIndex::PaletteRegister3, 0x03u8),
            (AttributeControllerIndex::PaletteRegister4, 0x04u8),
            (AttributeControllerIndex::PaletteRegister5, 0x05u8),
            (AttributeControllerIndex::PaletteRegister6, 0x14u8),
            (AttributeControllerIndex::PaletteRegister7, 0x07u8),
            (AttributeControllerIndex::PaletteRegister8, 0x38u8),
            (AttributeControllerIndex::PaletteRegister9, 0x39u8),
            (AttributeControllerIndex::PaletteRegisterA, 0x3Au8),
            (AttributeControllerIndex::PaletteRegisterB, 0x3Bu8),
            (AttributeControllerIndex::PaletteRegisterC, 0x3Cu8),
            (AttributeControllerIndex::PaletteRegisterD, 0x3Du8),
            (AttributeControllerIndex::PaletteRegisterE, 0x3Eu8),
            (AttributeControllerIndex::PaletteRegisterF, 0x3Fu8),
            (AttributeControllerIndex::ModeControl, 0x0Cu8),
            (AttributeControllerIndex::OverscanColor, 0x00u8),
            (AttributeControllerIndex::MemoryPlaneEnable, 0x0Fu8),
            (AttributeControllerIndex::HorizontalPixelPanning, 0x08u8),
            (AttributeControllerIndex::ColorSelect, 0x00u8),
        ],
    }
}

/// Builds the register table for the 40x25 text mode.
pub fn mode_40x25_configuration() -> (c: VgaConfiguration)
    ensures
        c@ == mode_40x25_configuration_spec(),
{
    let c = VgaConfiguration {
        miscellaneous_output: 0x67u8,
        sequencer_registers: vec![
            (SequencerIndex::SequencerReset, 0x03u8),
            (SequencerIndex::ClockingMode, 0x08u8),
            (SequencerIndex::PlaneMask, 0x03u8),
            (SequencerIndex::CharacterFont, 0x00u8),
            (SequencerIndex::MemoryMode, 0x02u8),
        ],
        crtc_controller_registers: vec![
            (CrtcControllerIndex::HorizontalTotal, 0x2Du8),
            (CrtcControllerIndex::HorizontalDisplayEnableEnd, 0x27u8),
            (CrtcControllerIndex::HorizontalBlankingStart, 0x28u8),
            (CrtcControllerIndex::HorizontalBlankingEnd, 0x90u8),
            (CrtcControllerIndex::HorizontalSyncStart, 0x2Bu8),
            (CrtcControllerIndex::HorizontalSyncEnd, 0xA0u8),
            (CrtcControllerIndex::VerticalTotal, 0xBFu8),
            (CrtcControllerIndex::Overflow, 0x1Fu8),
            (CrtcControllerIndex::PresetRowScan, 0x00u8),
            (CrtcControllerIndex::MaximumScanLine, 0x4Fu8),
            (CrtcControllerIndex::TextCursorStart, 0x0Du8),
            (CrtcControllerIndex::TextCursorEnd, 0x0Eu8),
            (CrtcControllerIndex::StartAddressHigh, 0x00u8),
            (CrtcControllerIndex::StartAddressLow, 0x00u8),
            (CrtcControllerIndex::TextCursorLocationHigh, 0x00u8),
            (CrtcControllerIndex::TextCursorLocationLow, 0xA0u8),
            (CrtcControllerIndex::VerticalSyncStart, 0x9Cu8),
            (CrtcControllerIndex::VerticalSyncEnd, 0x8Eu8),
            (CrtcControllerIndex::VerticalDisplayEnableEnd, 0x8Fu8),
            (CrtcControllerIndex::Offset, 0x14u8),
            (CrtcControllerIndex::UnderlineLocation, 0x1Fu8),
            (CrtcControllerIndex::VerticalBlankingStart, 0x96u8),
            (CrtcControllerIndex::VerticalBlankingEnd, 0xB9u8),
            (CrtcControllerIndex::ModeControl, 0xA3u8),
            (CrtcControllerIndex::LineCompare, 0xFFu8),
        ],
        graphics_controller_registers: vec![
            (GraphicsControllerIndex::SetReset, 0x00u8),
            (GraphicsControllerIndex::EnableSetReset, 0x00u8),
            (GraphicsControllerIndex::ColorCompare, 0x00u8),
            (GraphicsControllerIndex::DataRotate, 0x00u8),
            (GraphicsControllerIndex::ReadPlaneSelect, 0x00u8),
            (GraphicsControllerIndex::GraphicsMode, 0x10u8),
            (GraphicsControllerIndex::Miscellaneous, 0x0Eu8),
            (GraphicsControllerIndex::ColorDontCare, 0x00u8),
            (GraphicsControllerIndex::BitMask, 0xFFu8),
        ],
        attribute_controller_registers: vec![
            (AttributeControllerIndex::PaletteRegister0, 0x00u8),
            (AttributeControllerIndex::PaletteRegister1, 0x01u8),
            (AttributeControllerIndex::PaletteRegister2, 0x02u8),
            (AttributeControllerIndex::PaletteRegister3, 0x03u8),
            (AttributeControllerIndex::PaletteRegister4, 0x04u8),
            (AttributeControllerIndex::PaletteRegister5, 0x05u8),
            (AttributeControllerIndex::PaletteRegister6, 0x14u8),
            (AttributeControllerIndex::PaletteRegister7, 0x07u8),
            (AttributeControllerIndex::PaletteRegister8, 0x38u8),
            (AttributeControllerIndex::PaletteRegister9, 0x39u8),
            (AttributeControllerIndex::PaletteRegisterA, 0x3Au8),
            (AttributeControllerIndex::PaletteRegisterB, 0x3Bu8),
            (AttributeControllerIndex::PaletteRegisterC, 0x3Cu8),
            (AttributeControllerIndex::PaletteRegisterD, 0x3Du8),
            (AttributeControllerIndex::PaletteRegisterE, 0x3Eu8),
            (AttributeControllerIndex::PaletteRegisterF, 0x3Fu8),
            (AttributeControllerIndex::ModeControl, 0x0Cu8),
            (AttributeControllerIndex::OverscanColor, 0x00u8),
            (AttributeControllerIndex::MemoryPlaneEnable, 0x0Fu8),
            (AttributeControllerIndex::HorizontalPixelPanning, 0x08u8),
            (AttributeControllerIndex::ColorSelect, 0x00u8),
        ],
    };
    proof {
        assert(c@ =~= mode_40x25_configuration_spec());
    }
    c
}

/// The 40x25 text table covers every register group in index order.
pub proof fn lemma_mode_40x25_configuration_covers()
    ensures
        configuration_covers_groups(mode_40x25_configuration_spec()),
{
}

/// Register values for the 40x50 text mode.
pub open spec fn mode_40x50_configuration_spec() -> VgaConfigurationView {
    VgaConfigurationView {
        miscellaneous_output: 0x67u8,
        sequencer_registers: seq![
            (SequencerIndex::SequencerReset, 0x03u8),
            (SequencerIndex::ClockingMode, 0x08u8),
            (SequencerIndex::PlaneMask, 0x03u8),
            (SequencerIndex::CharacterFont, 0x00u8),
            (SequencerIndex::MemoryMode, 0x02u8),
        ],
        crtc_controller_registers: seq![
            (CrtcControllerIndex::HorizontalTotal, 0x2Du8),
            (CrtcControllerIndex::HorizontalDisplayEnableEnd, 0x27u8),
            (CrtcControllerIndex::HorizontalBlankingStart, 0x28u8),
            (CrtcControllerIndex::HorizontalBlankingEnd, 0x90u8),
            (CrtcControllerIndex::HorizontalSyncStart, 0x2Bu8),
            (CrtcControllerIndex::HorizontalSyncEnd, 0xA0u8),
            (CrtcControllerIndex::VerticalTotal, 0xBFu8),
            (CrtcControllerIndex::Overflow, 0x1Fu8),
            (CrtcControllerIndex::PresetRowScan, 0x00u8),
            (CrtcControllerIndex::MaximumScanLine, 0x47u8),
            (CrtcControllerIndex::TextCursorStart, 0x06u8),
            (CrtcControllerIndex::TextCursorEnd, 0x07u8),
            (CrtcControllerIndex::StartAddressHigh, 0x00u8),
            (CrtcControllerIndex::StartAddressLow, 0x00u8),
            (CrtcControllerIndex::TextCursorLocationHigh, 0x04u8),
            (CrtcControllerIndex::TextCursorLocationLow, 0x60u8),
            (CrtcControllerIndex::VerticalSyncStart, 0x9Cu8),
            (CrtcControllerIndex::VerticalSyncEnd, 0x8Eu8),
            (CrtcControllerIndex::VerticalDisplayEnableEnd, 0x8Fu8),
            (CrtcControllerIndex::Offset, 0x14u8),
            (CrtcControllerIndex::UnderlineLocation, 0x1Fu8),
            (CrtcControllerIndex::VerticalBlankingStart, 0x96u8),
            (CrtcControllerIndex::VerticalBlankingEnd, 0xB9u8),
            (CrtcControllerIndex::ModeControl, 0xA3u8),
            (CrtcControllerIndex::LineCompare, 0xFFu8),
        ],
        graphics_controller_registers: seq![
            (GraphicsControllerIndex::SetReset, 0x00u8),
            (GraphicsControllerIndex::EnableSetReset, 0x00u8),
            (GraphicsControllerIndex::ColorCompare, 0x00u8),
            (GraphicsControllerIndex::DataRotate, 0x00u8),
            (GraphicsControllerIndex::ReadPlaneSelect, 0x00u8),
            (GraphicsControllerIndex::GraphicsMode, 0x10u8),
            (GraphicsControllerIndex::Miscellaneous, 0x0Eu8),
            (GraphicsControllerIndex::ColorDontCare, 0x00u8),
            (GraphicsControllerIndex::BitMask, 0xFFu8),
        ],
        attribute_controller_registers: seq![
            (AttributeControllerIndex::PaletteRegister0, 0x00u8),
            (AttributeControllerIndex::PaletteRegister1, 0x01u8),
            (AttributeControllerIndex::PaletteRegister2, 0x02u8),
            (AttributeControllerIndex::PaletteRegister3, 0x03u8),
            (AttributeControllerIndex::PaletteRegister4, 0x04u8),
            (AttributeControllerIndex::PaletteRegister5, 0x05u8),
            (AttributeControllerIndex::PaletteRegister6, 0x14u8),
            (AttributeControllerIndex::PaletteRegister7, 0x07u8),
            (AttributeControllerIndex::PaletteRegister8, 0x38u8),
            (AttributeControllerIndex::PaletteRegister9, 0x39u8),
            (AttributeControllerIndex::PaletteRegisterA, 0x3Au8),
            (AttributeControllerIndex::PaletteRegisterB, 0x3Bu8),
            (AttributeControllerIndex::PaletteRegisterC, 0x3Cu8),
            (AttributeControllerIndex::PaletteRegisterD, 0x3Du8),
            (AttributeControllerIndex::PaletteRegisterE, 0x3Eu8),
            (AttributeControllerIndex::PaletteRegisterF, 0x3Fu8),
            (AttributeControllerIndex::ModeControl, 0x0Cu8),
            (AttributeControllerIndex::OverscanColor, 0x00u8),
            (AttributeControllerIndex::MemoryPlaneEnable, 0x0Fu8),
            (AttributeControllerIndex::HorizontalPixelPanning, 0x08u8),
            (AttributeControllerIndex::ColorSelect, 0x00u8),
        ],
    }
}

/// Builds the register table for the 40x50 text mode.
pub fn mode_40x50_configuration() -> (c: VgaConfiguration)
    ensures
        c@ == mode_40x50_configuration_spec(),
{
    let c = VgaConfiguration {
        miscellaneous_output: 0x67u8,
        sequencer_registers: vec![
            (SequencerIndex::SequencerReset, 0x03u8),
            (SequencerIndex::ClockingMode, 0x08u8),
            (SequencerIndex::PlaneMask, 0x03u8),
            (SequencerIndex::CharacterFont, 0x00u8),
            (SequencerIndex::MemoryMode, 0x02u8),
        ],
        crtc_controller_registers: vec![
            (CrtcControllerIndex::HorizontalTotal, 0x2Du8),
            (CrtcControllerIndex::HorizontalDisplayEnableEnd, 0x27u8),
            (CrtcControllerIndex::HorizontalBlankingStart, 0x28u8),
            (CrtcControllerIndex::HorizontalBlankingEnd, 0x90u8),
            (CrtcControllerIndex::HorizontalSyncStart, 0x2Bu8),
            (CrtcControllerIndex::HorizontalSyncEnd, 0xA0u8),
            (CrtcControllerIndex::VerticalTotal, 0xBFu8),
            (CrtcControllerIndex::Overflow, 0x1Fu8),
            (CrtcControllerIndex::PresetRowScan, 0x00u8),
            (CrtcControllerIndex::MaximumScanLine, 0x47u8),
            (CrtcControllerIndex::TextCursorStart, 0x06u8),
            (CrtcControllerIndex::TextCursorEnd, 0x07u8),
            (CrtcControllerIndex::StartAddressHigh, 0x00u8),
            (CrtcControllerIndex::StartAddressLow, 0x00u8),
            (CrtcControllerIndex::TextCursorLocationHigh, 0x04u8),
            (CrtcControllerIndex::TextCursorLocationLow, 0x60u8),
            (CrtcControllerIndex::VerticalSyncStart, 0x9Cu8),
            (CrtcControllerIndex::VerticalSyncEnd, 0x8Eu8),
            (CrtcControllerIndex::VerticalDisplayEnableEnd, 0x8Fu8),
            (CrtcControllerIndex::Offset, 0x14u8),
            (CrtcControllerIndex::UnderlineLocation, 0x1Fu8),
            (CrtcControllerIndex::VerticalBlankingStart, 0x96u8),
            (CrtcControllerIndex::VerticalBlankingEnd, 0xB9u8),
            (CrtcControllerIndex::ModeControl, 0xA3u8),
            (CrtcControllerIndex::LineCompare, 0xFFu8),
        ],
        graphics_controller_registers: vec![
            (GraphicsControllerIndex::SetReset, 0x00u8),
            (GraphicsControllerIndex::EnableSetReset, 0x00u8),
            (GraphicsControllerIndex::ColorCompare, 0x00u8),
            (GraphicsControllerIndex::DataRotate, 0x00u8),
            (GraphicsControllerIndex::ReadPlaneSelect, 0x00u8),
            (GraphicsControllerIndex::GraphicsMode, 0x10u8),
            (GraphicsControllerIndex::Miscellaneous, 0x0Eu8),
            (GraphicsControllerIndex::ColorDontCare, 0x00u8),
            (GraphicsControllerIndex::BitMask, 0xFFu8),
        ],
        attribute_controller_registers: vec![
            (AttributeControllerIndex::PaletteRegister0, 0x00u8),
            (AttributeControllerIndex::PaletteRegister1, 0x01u8),
            (AttributeControllerIndex::PaletteRegister2, 0x02u8),
            (AttributeControllerIndex::PaletteRegister3, 0x03u8),
            (AttributeControllerIndex::PaletteRegister4, 0x04u8),
            (AttributeControllerIndex::PaletteRegister5, 0x05u8),
            (AttributeControllerIndex::PaletteRegister6, 0x14u8),
            (AttributeControllerIndex::PaletteRegister7, 0x07u8),
            (AttributeControllerIndex::PaletteRegister8, 0x38u8),
            (AttributeControllerIndex::PaletteRegister9, 0x39u8),
            (AttributeControllerIndex::PaletteRegisterA, 0x3Au8),
            (AttributeControllerIndex::PaletteRegisterB, 0x3Bu8),
            (AttributeControllerIndex::PaletteRegisterC, 0x3Cu8),
            (AttributeControllerIndex::PaletteRegisterD, 0x3Du8),
            (AttributeControllerIndex::PaletteRegisterE, 0x3Eu8),
            (AttributeControllerIndex::PaletteRegisterF, 0x3Fu8),
            (AttributeControllerIndex::ModeControl, 0x0Cu8),
            (AttributeControllerIndex::OverscanColor, 0x00u8),
            (AttributeControllerIndex::MemoryPlaneEnable, 0x0Fu8),
            (AttributeControllerIndex::HorizontalPixelPanning, 0x08u8),
            (AttributeControllerIndex::ColorSelect, 0x00u8),
        ],
    };
    proof {
        assert(c@ =~= mode_40x50_configuration_spec());
    }
    c
}

/// The 40x50 text table covers every register group in index order.
pub proof fn lemma_mode_40x50_configuration_covers()
    ensures
        configuration_covers_groups(mode_40x50_configuration_spec()),
{
}

/// Register values for the 80x25 text mode.
pub open spec fn mode_80x25_configuration_spec() -> VgaConfigurationView {
    VgaConfigurationView {
        miscellaneous_output: 0x67u8,
        sequencer_registers: seq![
            (SequencerIndex::SequencerReset, 0x03u8),
            (SequencerIndex::ClockingMode, 0x00u8),
            (SequencerIndex::PlaneMask, 0x03u8),
            (SequencerIndex::CharacterFont, 0x00u8),
            (SequencerIndex::MemoryMode, 0x02u8),
        ],
        crtc_controller_registers: seq![
            (CrtcControllerIndex::HorizontalTotal, 0x5Fu8),
            (CrtcControllerIndex::HorizontalDisplayEnableEnd, 0x4Fu8),
            (CrtcControllerIndex::HorizontalBlankingStart, 0x50u8),
            (CrtcControllerIndex::HorizontalBlankingEnd, 0x82u8),
            (CrtcControllerIndex::HorizontalSyncStart, 0x55u8),
            (CrtcControllerIndex::HorizontalSyncEnd, 0x81u8),
            (CrtcControllerIndex::VerticalTotal, 0xBFu8),
            (CrtcControllerIndex::Overflow, 0x1Fu8),
            (CrtcControllerIndex::PresetRowScan, 0x00u8),
            (CrtcControllerIndex::MaximumScanLine, 0x4Fu8),
            (CrtcControllerIndex::TextCursorStart, 0x0Du8),
            (CrtcControllerIndex::TextCursorEnd, 0x0Eu8),
            (CrtcControllerIndex::StartAddressHigh, 0x00u8),
            (CrtcControllerIndex::StartAddressLow, 0x00u8),
            (CrtcControllerIndex::TextCursorLocationHigh, 0x00u8),
            (CrtcControllerIndex::TextCursorLocationLow, 0x50u8),
            (CrtcControllerIndex::VerticalSyncStart, 0x9Cu8),
            (CrtcControllerIndex::VerticalSyncEnd, 0x0Eu8),
            (CrtcControllerIndex::VerticalDisplayEnableEnd, 0x8Fu8),
            (CrtcControllerIndex::Offset, 0x28u8),
            (CrtcControllerIndex::UnderlineLocation, 0x1Fu8),
            (CrtcControllerIndex::VerticalBlankingStart, 0x96u8),
            (CrtcControllerIndex::VerticalBlankingEnd, 0xB9u8),
            (CrtcControllerIndex::ModeControl, 0xA3u8),
            (CrtcControllerIndex::LineCompare, 0xFFu8),
        ],
        graphics_controller_registers: seq![
            (GraphicsControllerIndex::SetReset, 0x00u8),
            (GraphicsControllerIndex::EnableSetReset, 0x00u8),
            (GraphicsControllerIndex::ColorCompare, 0x00u8),
            (GraphicsControllerIndex::DataRotate, 0x00u8),
            (GraphicsControllerIndex::ReadPlaneSelect, 0x00u8),
            (GraphicsControllerIndex::GraphicsMode, 0x10u8),
            (GraphicsControllerIndex::Miscellaneous, 0x0Eu8),
            (GraphicsControllerIndex::ColorDontCare, 0x00u8),
            (GraphicsControllerIndex::BitMask, 0xFFu8),
        ],
        attribute_controller_registers: seq![
            (AttributeControllerIndex::PaletteRegister0, 0x00u8),
            (AttributeControllerIndex::PaletteRegister1, 0x01u8),
            (AttributeControllerIndex::PaletteRegister2, 0x02u8),
            (AttributeControllerIndex::PaletteRegister3, 0x03u8),
            (AttributeControllerIndex::PaletteRegister4, 0x04u8),
            (AttributeControllerIndex::PaletteRegister5, 0x05u8),
            (AttributeControllerIndex::PaletteRegister6, 0x14u8),
            (AttributeControllerIndex::PaletteRegister7, 0x07u8),
            (AttributeControllerIndex::PaletteRegister8, 0x38u8),
            (AttributeControllerIndex::PaletteRegister9, 0x39u8),
            (AttributeControllerIndex::PaletteRegisterA, 0x3Au8),
            (AttributeControllerIndex::PaletteRegisterB, 0x3Bu8),
            (AttributeControllerIndex::PaletteRegisterC, 0x3Cu8),
            (AttributeControllerIndex::PaletteRegisterD, 0x3Du8),
            (AttributeControllerIndex::PaletteRegisterE, 0x3Eu8),
            (AttributeControllerIndex::PaletteRegisterF, 0x3Fu8),
            (AttributeControllerIndex::ModeControl, 0x0Cu8),
            (AttributeControllerIndex::OverscanColor, 0x00u8),
            (AttributeControllerIndex::MemoryPlaneEnable, 0x0Fu8),
            (AttributeControllerIndex::HorizontalPixelPanning, 0x08u8),
            (AttributeControllerIndex::ColorSelect, 0x00u8),
        ],
    }
}

/// Builds the register table for the 80x25 text mode.
pub fn mode_80x25_configuration() -> (c: VgaConfiguration)
    ensures
        c@ == mode_80x25_configuration_spec(),
{
    let c = VgaConfiguration {
        miscellaneous_output: 0x67u8,
        sequencer_registers: vec![
            (SequencerIndex::SequencerReset, 0x03u8),
            (SequencerIndex::ClockingMode, 0x00u8),
            (SequencerIndex::PlaneMask, 0x03u8),
            (SequencerIndex::CharacterFont, 0x00u8),
            (SequencerIndex::MemoryMode, 0x02u8),
        ],
        crtc_controller_registers: vec![
            (CrtcControllerIndex::HorizontalTotal, 0x5Fu8),
            (CrtcControllerIndex::HorizontalDisplayEnableEnd, 0x4Fu8),
            (CrtcControllerIndex::HorizontalBlankingStart, 0x50u8),
            (CrtcControllerIndex::HorizontalBlankingEnd, 0x82u8),
            (CrtcControllerIndex::HorizontalSyncStart, 0x55u8),
            (CrtcControllerIndex::HorizontalSyncEnd, 0x81u8),
            (CrtcControllerIndex::VerticalTotal, 0xBFu8),
            (CrtcControllerIndex::Overflow, 0x1Fu8),
            (CrtcControllerIndex::PresetRowScan, 0x00u8),
            (CrtcControllerIndex::MaximumScanLine, 0x4Fu8),
            (CrtcControllerIndex::TextCursorStart, 0x0Du8),
            (CrtcControllerIndex::TextCursorEnd, 0x0Eu8),
            (CrtcControllerIndex::StartAddressHigh, 0x00u8),
            (CrtcControllerIndex::StartAddressLow, 0x00u8),
            (CrtcControllerIndex::TextCursorLocationHigh, 0x00u8),
            (CrtcControllerIndex::TextCursorLocationLow, 0x50u8),
            (CrtcControllerIndex::VerticalSyncStart, 0x9Cu8),
            (CrtcControllerIndex::VerticalSyncEnd, 0x0Eu8),
            (CrtcControllerIndex::VerticalDisplayEnableEnd, 0x8Fu8),
            (CrtcControllerIndex::Offset, 0x28u8),
            (CrtcControllerIndex::UnderlineLocation, 0x1Fu8),
            (CrtcControllerIndex::VerticalBlankingStart, 0x96u8),
            (CrtcControllerIndex::VerticalBlankingEnd, 0xB9u8),
            (CrtcControllerIndex::ModeControl, 0xA3u8),
            (CrtcControllerIndex::LineCompare, 0xFFu8),
        ],
        graphics_controller_registers: vec![
            (GraphicsControllerIndex::SetReset, 0x00u8),
            (GraphicsControllerIndex::EnableSetReset, 0x00u8),
            (GraphicsControllerIndex::ColorCompare, 0x00u8),
            (GraphicsControllerIndex::DataRotate, 0x00u8),
            (GraphicsControllerIndex::ReadPlaneSelect, 0x00u8),
            (GraphicsControllerIndex::GraphicsMode, 0x10u8),
            (GraphicsControllerIndex::Miscellaneous, 0x0Eu8),
            (GraphicsControllerIndex::ColorDontCare, 0x00u8),
            (GraphicsControllerIndex::BitMask, 0xFFu8),
        ],
        attribute_controller_registers: vec![
            (AttributeControllerIndex::PaletteRegister0, 0x00u8),
            (AttributeControllerIndex::PaletteRegister1, 0x01u8),
            (AttributeControllerIndex::PaletteRegister2, 0x02u8),
            (AttributeControllerIndex::PaletteRegister3, 0x03u8),
            (AttributeControllerIndex::PaletteRegister4, 0x04u8),
            (AttributeControllerIndex::PaletteRegister5, 0x05u8),
            (AttributeControllerIndex::PaletteRegister6, 0x14u8),
            (AttributeControllerIndex::PaletteRegister7, 0x07u8),
            (AttributeControllerIndex::PaletteRegister8, 0x38u8),
            (AttributeControllerIndex::PaletteRegister9, 0x39u8),
            (AttributeControllerIndex::PaletteRegisterA, 0x3Au8),
            (AttributeControllerIndex::PaletteRegisterB, 0x3Bu8),
            (AttributeControllerIndex::PaletteRegisterC, 0x3Cu8),
            (AttributeControllerIndex::PaletteRegisterD, 0x3Du8),
            (AttributeControllerIndex::PaletteRegisterE, 0x3Eu8),
            (AttributeControllerIndex::PaletteRegisterF, 0x3Fu8),
            (AttributeControllerIndex::ModeControl, 0x0Cu8),
            (AttributeControllerIndex::OverscanColor, 0x00u8),
            (AttributeControllerIndex::MemoryPlaneEnable, 0x0Fu8),
            (AttributeControllerIndex::HorizontalPixelPanning, 0x08u8),
            (AttributeControllerIndex::ColorSelect, 0x00u8),
        ],
    };
    proof {
        assert(c@ =~= mode_80x25_configuration_spec());
    }
    c
}

/// The 80x25 text table covers every register group in index order.
pub proof fn lemma_mode_80x25_configuration_covers()
    ensures
        configuration_covers_groups(mode_80x25_configuration_spec()),
{
}

/// Register values for the 640x480 16-color planar graphics mode.
pub open spec fn mode_640x480x16_configuration_spec() -> VgaConfigurationView {
    VgaConfigurationView {
        miscellaneous_output: 0xE3u8,
        sequencer_registers: seq![
            (SequencerIndex::SequencerReset, 0x03u8),
            (SequencerIndex::ClockingMode, 0x01u8),
            (SequencerIndex::PlaneMask, 0x08u8),
            (SequencerIndex::CharacterFont, 0x00u8),
            (SequencerIndex::MemoryMode, 0x06u8),
        ],
        crtc_controller_registers: seq![
            (CrtcControllerIndex::HorizontalTotal, 0x5Fu8),
            (CrtcControllerIndex::HorizontalDisplayEnableEnd, 0x4Fu8),
            (CrtcControllerIndex::HorizontalBlankingStart, 0x50u8),
            (CrtcControllerIndex::HorizontalBlankingEnd, 0x82u8),
            (CrtcControllerIndex::HorizontalSyncStart, 0x54u8),
            (CrtcControllerIndex::HorizontalSyncEnd, 0x80u8),
            (CrtcControllerIndex::VerticalTotal, 0x0Bu8),
            (CrtcControllerIndex::Overflow, 0x3Eu8),
            (CrtcControllerIndex::PresetRowScan, 0x00u8),
            (CrtcControllerIndex::MaximumScanLine, 0x40u8),
            (CrtcControllerIndex::TextCursorStart, 0x00u8),
            (CrtcControllerIndex::TextCursorEnd, 0x00u8),
            (CrtcControllerIndex::StartAddressHigh, 0x00u8),
            (CrtcControllerIndex::StartAddressLow, 0x00u8),
            (CrtcControllerIndex::TextCursorLocationHigh, 0x00u8),
            (CrtcControllerIndex::TextCursorLocationLow, 0x00u8),
            (CrtcControllerIndex::VerticalSyncStart, 0xEAu8),
            (CrtcControllerIndex::VerticalSyncEnd, 0x0Cu8),
            (CrtcControllerIndex::VerticalDisplayEnableEnd, 0xDFu8),
            (CrtcControllerIndex::Offset, 0x28u8),
            (CrtcControllerIndex::UnderlineLocation, 0x00u8),
            (CrtcControllerIndex::VerticalBlankingStart, 0xE7u8),
            (CrtcControllerIndex::VerticalBlankingEnd, 0x04u8),
            (CrtcControllerIndex::ModeControl, 0xE3u8),
            (CrtcControllerIndex::LineCompare, 0xFFu8),
        ],
        graphics_controller_registers: seq![
            (GraphicsControllerIndex::SetReset, 0x00u8),
            (GraphicsControllerIndex::EnableSetReset, 0x00u8),
            (GraphicsControllerIndex::ColorCompare, 0x00u8),
            (GraphicsControllerIndex::DataRotate, 0x00u8),
            (GraphicsControllerIndex::ReadPlaneSelect, 0x03u8),
            (GraphicsControllerIndex::GraphicsMode, 0x00u8),
            (GraphicsControllerIndex::Miscellaneous, 0x05u8),
            (GraphicsControllerIndex::ColorDontCare, 0x0Fu8),
            (GraphicsControllerIndex::BitMask, 0xFFu8),
        ],
        attribute_controller_registers: seq![
            (AttributeControllerIndex::PaletteRegister0, 0x00u8),
            (AttributeControllerIndex::PaletteRegister1, 0x01u8),
            (AttributeControllerIndex::PaletteRegister2, 0x02u8),
            (AttributeControllerIndex::PaletteRegister3, 0x03u8),
            (AttributeControllerIndex::PaletteRegister4, 0x04u8),
            (AttributeControllerIndex::PaletteRegister5, 0x05u8),
            (AttributeControllerIndex::PaletteRegister6, 0x14u8),
            (AttributeControllerIndex::PaletteRegister7, 0x07u8),
            (AttributeControllerIndex::PaletteRegister8, 0x38u8),
            (AttributeControllerIndex::PaletteRegister9, 0x39u8),
            (AttributeControllerIndex::PaletteRegisterA, 0x3Au8),
            (AttributeControllerIndex::PaletteRegisterB, 0x3Bu8),
            (AttributeControllerIndex::PaletteRegisterC, 0x3Cu8),
            (AttributeControllerIndex::PaletteRegisterD, 0x3Du8),
            (AttributeControllerIndex::PaletteRegisterE, 0x3Eu8),
            (AttributeControllerIndex::PaletteRegisterF, 0x3Fu8),
            (AttributeControllerIndex::ModeControl, 0x01u8),
            (AttributeControllerIndex::OverscanColor, 0x00u8),
            (AttributeControllerIndex::MemoryPlaneEnable, 0x0Fu8),
            (AttributeControllerIndex::HorizontalPixelPanning, 0x00u8),
            (AttributeControllerIndex::ColorSelect, 0x00u8),
        ],
    }
}

/// Builds the register table for the 640x480 16-color planar graphics mode.
pub fn mode_640x480x16_configuration() -> (c: VgaConfiguration)
    ensures
        c@ == mode_640x480x16_configuration_spec(),
{
    let c = VgaConfiguration {
        miscellaneous_output: 0xE3u8,
        sequencer_registers: vec![
            (SequencerIndex::SequencerReset, 0x03u8),
            (SequencerIndex::ClockingMode, 0x01u8),
            (SequencerIndex::PlaneMask, 0x08u8),
            (SequencerIndex::CharacterFont, 0x00u8),
            (SequencerIndex::MemoryMode, 0x06u8),
        ],
        crtc_controller_registers: vec![
            (CrtcControllerIndex::HorizontalTotal, 0x5Fu8),
            (CrtcControllerIndex::HorizontalDisplayEnableEnd, 0x4Fu8),
            (CrtcControllerIndex::HorizontalBlankingStart, 0x50u8),
            (CrtcControllerIndex::HorizontalBlankingEnd, 0x82u8),
            (CrtcControllerIndex::HorizontalSyncStart, 0x54u8),
            (CrtcControllerIndex::HorizontalSyncEnd, 0x80u8),
            (CrtcControllerIndex::VerticalTotal, 0x0Bu8),
            (CrtcControllerIndex::Overflow, 0x3Eu8),
            (CrtcControllerIndex::PresetRowScan, 0x00u8),
            (CrtcControllerIndex::MaximumScanLine, 0x40u8),
            (CrtcControllerIndex::TextCursorStart, 0x00u8),
            (CrtcControllerIndex::TextCursorEnd, 0x00u8),
            (CrtcControllerIndex::StartAddressHigh, 0x00u8),
            (CrtcControllerIndex::StartAddressLow, 0x00u8),
            (CrtcControllerIndex::TextCursorLocationHigh, 0x00u8),
            (CrtcControllerIndex::TextCursorLocationLow, 0x00u8),
            (CrtcControllerIndex::VerticalSyncStart, 0xEAu8),
            (CrtcControllerIndex::VerticalSyncEnd, 0x0Cu8),
            (CrtcControllerIndex::VerticalDisplayEnableEnd, 0xDFu8),
            (CrtcControllerIndex::Offset, 0x28u8),
            (CrtcControllerIndex::UnderlineLocation, 0x00u8),
            (CrtcControllerIndex::VerticalBlankingStart, 0xE7u8),
            (CrtcControllerIndex::VerticalBlankingEnd, 0x04u8),
            (CrtcControllerIndex::ModeControl, 0xE3u8),
            (CrtcControllerIndex::LineCompare, 0xFFu8),
        ],
        graphics_controller_registers: vec![
            (GraphicsControllerIndex::SetReset, 0x00u8),
            (GraphicsControllerIndex::EnableSetReset, 0x00u8),
            (GraphicsControllerIndex::ColorCompare, 0x00u8),
            (GraphicsControllerIndex::DataRotate, 0x00u8),
            (GraphicsControllerIndex::ReadPlaneSelect, 0x03u8),
            (GraphicsControllerIndex::GraphicsMode, 0x00u8),
            (GraphicsControllerIndex::Miscellaneous, 0x05u8),
            (GraphicsControllerIndex::ColorDontCare, 0x0Fu8),
            (GraphicsControllerIndex::BitMask, 0xFFu8),
        ],
        attribute_controller_registers: vec![
            (AttributeControllerIndex::PaletteRegister0, 0x00u8),
            (AttributeControllerIndex::PaletteRegister1, 0x01u8),
            (AttributeControllerIndex::PaletteRegister2, 0x02u8),
            (AttributeControllerIndex::PaletteRegister3, 0x03u8),
            (AttributeControllerIndex::PaletteRegister4, 0x04u8),
            (AttributeControllerIndex::PaletteRegister5, 0x05u8),
            (AttributeControllerIndex::PaletteRegister6, 0x14u8),
            (AttributeControllerIndex::PaletteRegister7, 0x07u8),
            (AttributeControllerIndex::PaletteRegister8, 0x38u8),
            (AttributeControllerIndex::PaletteRegister9, 0x39u8),
            (AttributeControllerIndex::PaletteRegisterA, 0x3Au8),
            (AttributeControllerIndex::PaletteRegisterB, 0x3Bu8),
            (AttributeControllerIndex::PaletteRegisterC, 0x3Cu8),
            (AttributeControllerIndex::PaletteRegisterD, 0x3Du8),
            (AttributeControllerIndex::PaletteRegisterE, 0x3Eu8),
            (AttributeControllerIndex::PaletteRegisterF, 0x3Fu8),
            (AttributeControllerIndex::ModeControl, 0x01u8),
            (AttributeControllerIndex::OverscanColor, 0x00u8),
            (AttributeControllerIndex::MemoryPlaneEnable, 0x0Fu8),
            (AttributeControllerIndex::HorizontalPixelPanning, 0x00u8),
            (AttributeControllerIndex::ColorSelect, 0x00u8),
        ],
    };
    proof {
        assert(c@ =~= mode_640x480x16_configuration_spec());
    }
    c
}

/// The 640x480 16-color planar graphics table covers every register group in index order.
pub proof fn lemma_mode_640x480x16_configuration_covers()
    ensures
        configuration_covers_groups(mode_640x480x16_configuration_spec()),
{
}

/// Register values for the 320x200 256-color packed graphics mode.
pub open spec fn mode_320x200x256_configuration_spec() -> VgaConfigurationView {
    VgaConfigurationView {
        miscellaneous_output: 0x63u8,
        sequencer_registers: seq![
            (SequencerIndex::SequencerReset, 0x03u8),
            (SequencerIndex::ClockingMode, 0x01u8),
            (SequencerIndex::PlaneMask, 0x0Fu8),
            (SequencerIndex::CharacterFont, 0x00u8),
            (SequencerIndex::MemoryMode, 0x0Eu8),
        ],
        crtc_controller_registers: seq![
            (CrtcControllerIndex::HorizontalTotal, 0x5Fu8),
            (CrtcControllerIndex::HorizontalDisplayEnableEnd, 0x4Fu8),
            (CrtcControllerIndex::HorizontalBlankingStart, 0x50u8),
            (CrtcControllerIndex::HorizontalBlankingEnd, 0x82u8),
            (CrtcControllerIndex::HorizontalSyncStart, 0x54u8),
            (CrtcControllerIndex::HorizontalSyncEnd, 0x80u8),
            (CrtcControllerIndex::VerticalTotal, 0xBFu8),
            (CrtcControllerIndex::Overflow, 0x1Fu8),
            (CrtcControllerIndex::PresetRowScan, 0x00u8),
            (CrtcControllerIndex::MaximumScanLine, 0x41u8),
            (CrtcControllerIndex::TextCursorStart, 0x00u8),
            (CrtcControllerIndex::TextCursorEnd, 0x00u8),
            (CrtcControllerIndex::StartAddressHigh, 0x00u8),
            (CrtcControllerIndex::StartAddressLow, 0x00u8),
            (CrtcControllerIndex::TextCursorLocationHigh, 0x00u8),
            (CrtcControllerIndex::TextCursorLocationLow, 0x00u8),
            (CrtcControllerIndex::VerticalSyncStart, 0x9Cu8),
            (CrtcControllerIndex::VerticalSyncEnd, 0x0Eu8),
            (CrtcControllerIndex::VerticalDisplayEnableEnd, 0x8Fu8),
            (CrtcControllerIndex::Offset, 0x28u8),
            (CrtcControllerIndex::UnderlineLocation, 0x40u8),
            (CrtcControllerIndex::VerticalBlankingStart, 0x96u8),
            (CrtcControllerIndex::VerticalBlankingEnd, 0xB9u8),
            (CrtcControllerIndex::ModeControl, 0xA3u8),
            (CrtcControllerIndex::LineCompare, 0xFFu8),
        ],
        graphics_controller_registers: seq![
            (GraphicsControllerIndex::SetReset, 0x00u8),
            (GraphicsControllerIndex::EnableSetReset, 0x00u8),
            (GraphicsControllerIndex::ColorCompare, 0x00u8),
            (GraphicsControllerIndex::DataRotate, 0x00u8),
            (GraphicsControllerIndex::ReadPlaneSelect, 0x00u8),
            (GraphicsControllerIndex::GraphicsMode, 0x40u8),
            (GraphicsControllerIndex::Miscellaneous, 0x05u8),
            (GraphicsControllerIndex::ColorDontCare, 0x0Fu8),
            (GraphicsControllerIndex::BitMask, 0xFFu8),
        ],
        attribute_controller_registers: seq![
            (AttributeControllerIndex::PaletteRegister0, 0x00u8),
            (AttributeControllerIndex::PaletteRegister1, 0x01u8),
            (AttributeControllerIndex::PaletteRegister2, 0x02u8),
            (AttributeControllerIndex::PaletteRegister3, 0x03u8),
            (AttributeControllerIndex::PaletteRegister4, 0x04u8),
            (AttributeControllerIndex::PaletteRegister5, 0x05u8),
            (AttributeControllerIndex::PaletteRegister6, 0x06u8),
            (AttributeControllerIndex::PaletteRegister7, 0x07u8),
            (AttributeControllerIndex::PaletteRegister8, 0x08u8),
            (AttributeControllerIndex::PaletteRegister9, 0x09u8),
            (AttributeControllerIndex::PaletteRegisterA, 0x0Au8),
            (AttributeControllerIndex::PaletteRegisterB, 0x0Bu8),
            (AttributeControllerIndex::PaletteRegisterC, 0x0Cu8),
            (AttributeControllerIndex::PaletteRegisterD, 0x0Du8),
            (AttributeControllerIndex::PaletteRegisterE, 0x0Eu8),
            (AttributeControllerIndex::PaletteRegisterF, 0x0Fu8),
            (AttributeControllerIndex::ModeControl, 0x41u8),
            (AttributeControllerIndex::OverscanColor, 0x00u8),
            (AttributeControllerIndex::MemoryPlaneEnable, 0x0Fu8),
            (AttributeControllerIndex::HorizontalPixelPanning, 0x00u8),
            (AttributeControllerIndex::ColorSelect, 0x00u8),
        ],
    }
}

/// Builds the register table for the 320x200 256-color packed graphics mode.
pub fn mode_320x200x256_configuration() -> (c: VgaConfiguration)
    ensures
        c@ == mode_320x200x256_configuration_spec(),
{
    let c = VgaConfiguration {
        miscellaneous_output: 0x63u8,
        sequencer_registers: vec![
            (SequencerIndex::SequencerReset, 0x03u8),
            (SequencerIndex::ClockingMode, 0x01u8),
            (SequencerIndex::PlaneMask, 0x0Fu8),
            (SequencerIndex::CharacterFont, 0x00u8),
            (SequencerIndex::MemoryMode, 0x0Eu8),
        ],
        crtc_controller_registers: vec![
            (CrtcControllerIndex::HorizontalTotal, 0x5Fu8),
            (CrtcControllerIndex::HorizontalDisplayEnableEnd, 0x4Fu8),
            (CrtcControllerIndex::HorizontalBlankingStart, 0x50u8),
            (CrtcControllerIndex::HorizontalBlankingEnd, 0x82u8),
            (CrtcControllerIndex::HorizontalSyncStart, 0x54u8),
            (CrtcControllerIndex::HorizontalSyncEnd, 0x80u8),
            (CrtcControllerIndex::VerticalTotal, 0xBFu8),
            (CrtcControllerIndex::Overflow, 0x1Fu8),
            (CrtcControllerIndex::PresetRowScan, 0x00u8),
            (CrtcControllerIndex::MaximumScanLine, 0x41u8),
            (CrtcControllerIndex::TextCursorStart, 0x00u8),
            (CrtcControllerIndex::TextCursorEnd, 0x00u8),
            (CrtcControllerIndex::StartAddressHigh, 0x00u8),
            (CrtcControllerIndex::StartAddressLow, 0x00u8),
            (CrtcControllerIndex::TextCursorLocationHigh, 0x00u8),
            (CrtcControllerIndex::TextCursorLocationLow, 0x00u8),
            (CrtcControllerIndex::VerticalSyncStart, 0x9Cu8),
            (CrtcControllerIndex::VerticalSyncEnd, 0x0Eu8),
            (CrtcControllerIndex::VerticalDisplayEnableEnd, 0x8Fu8),
            (CrtcControllerIndex::Offset, 0x28u8),
            (CrtcControllerIndex::UnderlineLocation, 0x40u8),
            (CrtcControllerIndex::VerticalBlankingStart, 0x96u8),
            (CrtcControllerIndex::VerticalBlankingEnd, 0xB9u8),
            (CrtcControllerIndex::ModeControl, 0xA3u8),
            (CrtcControllerIndex::LineCompare, 0xFFu8),
        ],
        graphics_controller_registers: vec![
            (GraphicsControllerIndex::SetReset, 0x00u8),
            (GraphicsControllerIndex::EnableSetReset, 0x00u8),
            (GraphicsControllerIndex::ColorCompare, 0x00u8),
            (GraphicsControllerIndex::DataRotate, 0x00u8),
            (GraphicsControllerIndex::ReadPlaneSelect, 0x00u8),
            (GraphicsControllerIndex::GraphicsMode, 0x40u8),
            (GraphicsControllerIndex::Miscellaneous, 0x05u8),
            (GraphicsControllerIndex::ColorDontCare, 0x0Fu8),
            (GraphicsControllerIndex::BitMask, 0xFFu8),
        ],
        attribute_controller_registers: vec![
            (AttributeControllerIndex::PaletteRegister0, 0x00u8),
            (AttributeControllerIndex::PaletteRegister1, 0x01u8),
            (AttributeControllerIndex::PaletteRegister2, 0x02u8),
            (AttributeControllerIndex::PaletteRegister3, 0x03u8),
            (AttributeControllerIndex::PaletteRegister4, 0x04u8),
            (AttributeControllerIndex::PaletteRegister5, 0x05u8),
            (AttributeControllerIndex::PaletteRegister6, 0x06u8),
            (AttributeControllerIndex::PaletteRegister7, 0x07u8),
            (AttributeControllerIndex::PaletteRegister8, 0x08u8),
            (AttributeControllerIndex::PaletteRegister9, 0x09u8),
            (AttributeControllerIndex::PaletteRegisterA, 0x0Au8),
            (AttributeControllerIndex::PaletteRegisterB, 0x0Bu8),
            (AttributeControllerIndex::PaletteRegisterC, 0x0Cu8),
            (AttributeControllerIndex::PaletteRegisterD, 0x0Du8),
            (AttributeControllerIndex::PaletteRegisterE, 0x0Eu8),
            (AttributeControllerIndex::PaletteRegisterF, 0x0Fu8),
            (AttributeControllerIndex::ModeControl, 0x41u8),
            (AttributeControllerIndex::OverscanColor, 0x00u8),
            (AttributeControllerIndex::MemoryPlaneEnable, 0x0Fu8),
            (AttributeControllerIndex::HorizontalPixelPanning, 0x00u8),
            (AttributeControllerIndex::ColorSelect, 0x00u8),
        ],
    };
    proof {
        assert(c@ =~= mode_320x200x256_configuration_spec());
    }
    c
}

/// The 320x200 256-color packed graphics table covers every register group in index order.
pub proof fn lemma_mode_320x200x256_configuration_covers()
    ensures
        configuration_covers_groups(mode_320x200x256_configuration_spec()),
{
}

/// Register values for the 320x240 256-color packed graphics mode.
pub open spec fn mode_320x240x256_configuration_spec() -> VgaConfigurationView {
    VgaConfigurationView {
        miscellaneous_output: 0x63u8,
        sequencer_registers: seq![
            (SequencerIndex::SequencerReset, 0x03u8),
            (SequencerIndex::ClockingMode, 0x01u8),
            (SequencerIndex::PlaneMask, 0x0Fu8),
            (SequencerIndex::CharacterFont, 0x00u8),
            (SequencerIndex::MemoryMode, 0x06u8),
        ],
        crtc_controller_registers: seq![
            (CrtcControllerIndex::HorizontalTotal, 0x5Fu8),
            (CrtcControllerIndex::HorizontalDisplayEnableEnd, 0x4Fu8),
            (CrtcControllerIndex::HorizontalBlankingStart, 0x50u8),
            (CrtcControllerIndex::HorizontalBlankingEnd, 0x82u8),
            (CrtcControllerIndex::HorizontalSyncStart, 0x54u8),
            (CrtcControllerIndex::HorizontalSyncEnd, 0x80u8),
            (CrtcControllerIndex::VerticalTotal, 0x0Du8),
            (CrtcControllerIndex::Overflow, 0x3Eu8),
            (CrtcControllerIndex::PresetRowScan, 0x00u8),
            (CrtcControllerIndex::MaximumScanLine, 0x41u8),
            (CrtcControllerIndex::TextCursorStart, 0x00u8),
            (CrtcControllerIndex::TextCursorEnd, 0x00u8),
            (CrtcControllerIndex::StartAddressHigh, 0x00u8),
            (CrtcControllerIndex::StartAddressLow, 0x00u8),
            (CrtcControllerIndex::TextCursorLocationHigh, 0x00u8),
            (CrtcControllerIndex::TextCursorLocationLow, 0x00u8),
            (CrtcControllerIndex::VerticalSyncStart, 0xEAu8),
            (CrtcControllerIndex::VerticalSyncEnd, 0xACu8),
            (CrtcControllerIndex::VerticalDisplayEnableEnd, 0xDFu8),
            (CrtcControllerIndex::Offset, 0x28u8),
            (CrtcControllerIndex::UnderlineLocation, 0x00u8),
            (CrtcControllerIndex::VerticalBlankingStart, 0xE7u8),
            (CrtcControllerIndex::VerticalBlankingEnd, 0x06u8),
            (CrtcControllerIndex::ModeControl, 0xE3u8),
            (CrtcControllerIndex::LineCompare, 0xFFu8),
        ],
        graphics_controller_registers: seq![
            (GraphicsControllerIndex::SetReset, 0x00u8),
            (GraphicsControllerIndex::EnableSetReset, 0x00u8),
            (GraphicsControllerIndex::ColorCompare, 0x00u8),
            (GraphicsControllerIndex::DataRotate, 0x00u8),
            (GraphicsControllerIndex::ReadPlaneSelect, 0x00u8),
            (GraphicsControllerIndex::GraphicsMode, 0x40u8),
            (GraphicsControllerIndex::Miscellaneous, 0x05u8),
            (GraphicsControllerIndex::ColorDontCare, 0x0Fu8),
            (GraphicsControllerIndex::BitMask, 0xFFu8),
        ],
        attribute_controller_registers: seq![
            (AttributeControllerIndex::PaletteRegister0, 0x00u8),
            (AttributeControllerIndex::PaletteRegister1, 0x01u8),
            (AttributeControllerIndex::PaletteRegister2, 0x02u8),
            (AttributeControllerIndex::PaletteRegister3, 0x03u8),
            (AttributeControllerIndex::PaletteRegister4, 0x04u8),
            (AttributeControllerIndex::PaletteRegister5, 0x05u8),
            (AttributeControllerIndex::PaletteRegister6, 0x06u8),
            (AttributeControllerIndex::PaletteRegister7, 0x07u8),
            (AttributeControllerIndex::PaletteRegister8, 0x08u8),
            (AttributeControllerIndex::PaletteRegister9, 0x09u8),
            (AttributeControllerIndex::PaletteRegisterA, 0x0Au8),
            (AttributeControllerIndex::PaletteRegisterB, 0x0Bu8),
            (AttributeControllerIndex::PaletteRegisterC, 0x0Cu8),
            (AttributeControllerIndex::PaletteRegisterD, 0x0Du8),
            (AttributeControllerIndex::PaletteRegisterE, 0x0Eu8),
            (AttributeControllerIndex::PaletteRegisterF, 0x0Fu8),
            (AttributeControllerIndex::ModeControl, 0x41u8),
            (AttributeControllerIndex::OverscanColor, 0x00u8),
            (AttributeControllerIndex::MemoryPlaneEnable, 0x0Fu8),
            (AttributeControllerIndex::HorizontalPixelPanning, 0x00u8),
            (AttributeControllerIndex::ColorSelect, 0x00u8),
        ],
    }
}

/// Builds the register table for the 320x240 256-color packed graphics mode.
pub fn mode_320x240x256_configuration() -> (c: VgaConfiguration)
    ensures
        c@ == mode_320x240x256_configuration_spec(),
{
    let c = VgaConfiguration {
        miscellaneous_output: 0x63u8,
        sequencer_registers: vec![
            (SequencerIndex::SequencerReset, 0x03u8),
            (SequencerIndex::ClockingMode, 0x01u8),
            (SequencerIndex::PlaneMask, 0x0Fu8),
            (SequencerIndex::CharacterFont, 0x00u8),
            (SequencerIndex::MemoryMode, 0x06u8),
        ],
        crtc_controller_registers: vec![
            (CrtcControllerIndex::HorizontalTotal, 0x5Fu8),
            (CrtcControllerIndex::HorizontalDisplayEnableEnd, 0x4Fu8),
            (CrtcControllerIndex::HorizontalBlankingStart, 0x50u8),
            (CrtcControllerIndex::HorizontalBlankingEnd, 0x82u8),
            (CrtcControllerIndex::HorizontalSyncStart, 0x54u8),
            (CrtcControllerIndex::HorizontalSyncEnd, 0x80u8),
            (CrtcControllerIndex::VerticalTotal, 0x0Du8),
            (CrtcControllerIndex::Overflow, 0x3Eu8),
            (CrtcControllerIndex::PresetRowScan, 0x00u8),
            (CrtcControllerIndex::MaximumScanLine, 0x41u8),
            (CrtcControllerIndex::TextCursorStart, 0x00u8),
            (CrtcControllerIndex::TextCursorEnd, 0x00u8),
            (CrtcControllerIndex::StartAddressHigh, 0x00u8),
            (CrtcControllerIndex::StartAddressLow, 0x00u8),
            (CrtcControllerIndex::TextCursorLocationHigh, 0x00u8),
            (CrtcControllerIndex::TextCursorLocationLow, 0x00u8),
            (CrtcControllerIndex::VerticalSyncStart, 0xEAu8),
            (CrtcControllerIndex::VerticalSyncEnd, 0xACu8),
            (CrtcControllerIndex::VerticalDisplayEnableEnd, 0xDFu8),
            (CrtcControllerIndex::Offset, 0x28u8),
            (CrtcControllerIndex::UnderlineLocation, 0x00u8),
            (CrtcControllerIndex::VerticalBlankingStart, 0xE7u8),
            (CrtcControllerIndex::VerticalBlankingEnd, 0x06u8),
            (CrtcControllerIndex::ModeControl, 0xE3u8),
            (CrtcControllerIndex::LineCompare, 0xFFu8),
        ],
        graphics_controller_registers: vec![
            (GraphicsControllerIndex::SetReset, 0x00u8),
            (GraphicsControllerIndex::EnableSetReset, 0x00u8),
            (GraphicsControllerIndex::ColorCompare, 0x00u8),
            (GraphicsControllerIndex::DataRotate, 0x00u8),
            (GraphicsControllerIndex::ReadPlaneSelect, 0x00u8),
            (GraphicsControllerIndex::GraphicsMode, 0x40u8),
            (GraphicsControllerIndex::Miscellaneous, 0x05u8),
            (GraphicsControllerIndex::ColorDontCare, 0x0Fu8),
            (GraphicsControllerIndex::BitMask, 0xFFu8),
        ],
        attribute_controller_registers: vec![
            (AttributeControllerIndex::PaletteRegister0, 0x00u8),
            (AttributeControllerIndex::PaletteRegister1, 0x01u8),
            (AttributeControllerIndex::PaletteRegister2, 0x02u8),
            (AttributeControllerIndex::PaletteRegister3, 0x03u8),
            (AttributeControllerIndex::PaletteRegister4, 0x04u8),
            (AttributeControllerIndex::PaletteRegister5, 0x05u8),
            (AttributeControllerIndex::PaletteRegister6, 0x06u8),
            (AttributeControllerIndex::PaletteRegister7, 0x07u8),
            (AttributeControllerIndex::PaletteRegister8, 0x08u8),
            (AttributeControllerIndex::PaletteRegister9, 0x09u8),
            (AttributeControllerIndex::PaletteRegisterA, 0x0Au8),
            (AttributeControllerIndex::PaletteRegisterB, 0x0Bu8),
            (AttributeControllerIndex::PaletteRegisterC, 0x0Cu8),
            (AttributeControllerIndex::PaletteRegisterD, 0x0Du8),
            (AttributeControllerIndex::PaletteRegisterE, 0x0Eu8),
            (AttributeControllerIndex::PaletteRegisterF, 0x0Fu8),
            (AttributeControllerIndex::ModeControl, 0x41u8),
            (AttributeControllerIndex::OverscanColor, 0x00u8),
            (AttributeControllerIndex::MemoryPlaneEnable, 0x0Fu8),
            (AttributeControllerIndex::HorizontalPixelPanning, 0x00u8),
            (AttributeControllerIndex::ColorSelect, 0x00u8),
        ],
    };
    proof {
        assert(c@ =~= mode_320x240x256_configuration_spec());
    }
    c
}

/// The 320x240 256-color packed graphics table covers every register group in index order.
pub proof fn lemma_mode_320x240x256_configuration_covers()
    ensures
        configuration_covers_groups(mode_320x240x256_configuration_spec()),
{
}

} // verus!
