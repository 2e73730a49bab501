//! Typed indices for the four VGA register groups.
//!
//! Each group (Sequencer, CRTC, Graphics Controller, Attribute Controller) is
//! addressed through an index/data port pair, and only a closed set of indices
//! is meaningful within each group.  Representing the indices as enums makes
//! invalid indices unrepresentable: validity is established at construction,
//! not checked at each write.

use vstd::prelude::*;

verus! {

/// Number of registers in the Sequencer group.
pub const SEQUENCER_REGISTER_COUNT: usize = 5;

/// Number of registers in the CRT Controller group.
pub const CRTC_REGISTER_COUNT: usize = 25;

/// Number of registers in the Graphics Controller group.
pub const GRAPHICS_REGISTER_COUNT: usize = 9;

/// Number of registers in the Attribute Controller group.
pub const ATTRIBUTE_REGISTER_COUNT: usize = 21;

/// Index of a register within the Sequencer group.
#[derive(Clone, Copy, Debug, PartialEq, Eq, Structural)]
pub enum SequencerIndex {
    SequencerReset,
    ClockingMode,
    PlaneMask,
    CharacterFont,
    MemoryMode,
}

impl SequencerIndex {
    /// The numeric index written to the group's address port.
    pub open spec fn index(self) -> int {
        match self {
            SequencerIndex::SequencerReset => 0,
            SequencerIndex::ClockingMode => 1,
            SequencerIndex::PlaneMask => 2,
            SequencerIndex::CharacterFont => 3,
            SequencerIndex::MemoryMode => 4,
        }
    }

    pub fn to_index(self) -> (i: u8)
        ensures
            i as int == self.index(),
            i < SEQUENCER_REGISTER_COUNT,
    {
        match self {
            SequencerIndex::SequencerReset => 0,
            SequencerIndex::ClockingMode => 1,
            SequencerIndex::PlaneMask => 2,
            SequencerIndex::CharacterFont => 3,
            SequencerIndex::MemoryMode => 4,
        }
    }
}

/// Index of a register within the CRT Controller group.
#[derive(Clone, Copy, Debug, PartialEq, Eq, Structural)]
pub enum CrtcControllerIndex {
    HorizontalTotal,
    HorizontalDisplayEnableEnd,
    HorizontalBlankingStart,
    HorizontalBlankingEnd,
    HorizontalSyncStart,
    HorizontalSyncEnd,
    VerticalTotal,
    Overflow,
    PresetRowScan,
    MaximumScanLine,
    TextCursorStart,
    TextCursorEnd,
    StartAddressHigh,
    StartAddressLow,
    TextCursorLocationHigh,
    TextCursorLocationLow,
    VerticalSyncStart,
    VerticalSyncEnd,
    VerticalDisplayEnableEnd,
    Offset,
    UnderlineLocation,
    VerticalBlankingStart,
    VerticalBlankingEnd,
    ModeControl,
    LineCompare,
}

impl CrtcControllerIndex {
    /// The numeric index written to the group's address port.
    pub open spec fn index(self) -> int {
        match self {
            CrtcControllerIndex::HorizontalTotal => 0,
            CrtcControllerIndex::HorizontalDisplayEnableEnd => 1,
            CrtcControllerIndex::HorizontalBlankingStart => 2,
            CrtcControllerIndex::HorizontalBlankingEnd => 3,
            CrtcControllerIndex::HorizontalSyncStart => 4,
            CrtcControllerIndex::HorizontalSyncEnd => 5,
            CrtcControllerIndex::VerticalTotal => 6,
            CrtcControllerIndex::Overflow => 7,
            CrtcControllerIndex::PresetRowScan => 8,
            CrtcControllerIndex::MaximumScanLine => 9,
            CrtcControllerIndex::TextCursorStart => 10,
            CrtcControllerIndex::TextCursorEnd => 11,
            CrtcControllerIndex::StartAddressHigh => 12,
            CrtcControllerIndex::StartAddressLow => 13,
            CrtcControllerIndex::TextCursorLocationHigh => 14,
            CrtcControllerIndex::TextCursorLocationLow => 15,
            CrtcControllerIndex::VerticalSyncStart => 16,
            CrtcControllerIndex::VerticalSyncEnd => 17,
            CrtcControllerIndex::VerticalDisplayEnableEnd => 18,
            CrtcControllerIndex::Offset => 19,
            CrtcControllerIndex::UnderlineLocation => 20,
            CrtcControllerIndex::VerticalBlankingStart => 21,
            CrtcControllerIndex::VerticalBlankingEnd => 22,
            CrtcControllerIndex::ModeControl => 23,
            CrtcControllerIndex::LineCompare => 24,
        }
    }

    pub fn to_index(self) -> (i: u8)
        ensures
            i as int == self.index(),
            i < CRTC_REGISTER_COUNT,
    {
        match self {
            CrtcControllerIndex::HorizontalTotal => 0,
            CrtcControllerIndex::HorizontalDisplayEnableEnd => 1,
            CrtcControllerIndex::HorizontalBlankingStart => 2,
            CrtcControllerIndex::HorizontalBlankingEnd => 3,
            CrtcControllerIndex::HorizontalSyncStart => 4,
            CrtcControllerIndex::HorizontalSyncEnd => 5,
            CrtcControllerIndex::VerticalTotal => 6,
            CrtcControllerIndex::Overflow => 7,
            CrtcControllerIndex::PresetRowScan => 8,
            CrtcControllerIndex::MaximumScanLine => 9,
            CrtcControllerIndex::TextCursorStart => 10,
            CrtcControllerIndex::TextCursorEnd => 11,
            CrtcControllerIndex::StartAddressHigh => 12,
            CrtcControllerIndex::StartAddressLow => 13,
            CrtcControllerIndex::TextCursorLocationHigh => 14,
            CrtcControllerIndex::TextCursorLocationLow => 15,
            CrtcControllerIndex::VerticalSyncStart => 16,
            CrtcControllerIndex::VerticalSyncEnd => 17,
            CrtcControllerIndex::VerticalDisplayEnableEnd => 18,
            CrtcControllerIndex::Offset => 19,
            CrtcControllerIndex::UnderlineLocation => 20,
            CrtcControllerIndex::VerticalBlankingStart => 21,
            CrtcControllerIndex::VerticalBlankingEnd => 22,
            CrtcControllerIndex::ModeControl => 23,
            CrtcControllerIndex::LineCompare => 24,
        }
    }
}

/// Index of a register within the Graphics Controller group.
#[derive(Clone, Copy, Debug, PartialEq, Eq, Structural)]
pub enum GraphicsControllerIndex {
    SetReset,
    EnableSetReset,
    ColorCompare,
    DataRotate,
    ReadPlaneSelect,
    GraphicsMode,
    Miscellaneous,
    ColorDontCare,
    BitMask,
}

impl GraphicsControllerIndex {
    /// The numeric index written to the group's address port.
    pub open spec fn index(self) -> int {
        match self {
            GraphicsControllerIndex::SetReset => 0,
            GraphicsControllerIndex::EnableSetReset => 1,
            GraphicsControllerIndex::ColorCompare => 2,
            GraphicsControllerIndex::DataRotate => 3,
            GraphicsControllerIndex::ReadPlaneSelect => 4,
            GraphicsControllerIndex::GraphicsMode => 5,
            GraphicsControllerIndex::Miscellaneous => 6,
            GraphicsControllerIndex::ColorDontCare => 7,
            GraphicsControllerIndex::BitMask => 8,
        }
    }

    pub fn to_index(self) -> (i: u8)
        ensures
            i as int == self.index(),
            i < GRAPHICS_REGISTER_COUNT,
    {
        match self {
            GraphicsControllerIndex::SetReset => 0,
            GraphicsControllerIndex::EnableSetReset => 1,
            GraphicsControllerIndex::ColorCompare => 2,
            GraphicsControllerIndex::DataRotate => 3,
            GraphicsControllerIndex::ReadPlaneSelect => 4,
            GraphicsControllerIndex::GraphicsMode => 5,
            GraphicsControllerIndex::Miscellaneous => 6,
            GraphicsControllerIndex::ColorDontCare => 7,
            GraphicsControllerIndex::BitMask => 8,
        }
    }
}

/// Index of a register within the Attribute Controller group.
#[derive(Clone, Copy, Debug, PartialEq, Eq, Structural)]
pub enum AttributeControllerIndex {
    PaletteRegister0,
    PaletteRegister1,
    PaletteRegister2,
    PaletteRegister3,
    PaletteRegister4,
    PaletteRegister5,
    PaletteRegister6,
    PaletteRegister7,
    PaletteRegister8,
    PaletteRegister9,
    PaletteRegisterA,
    PaletteRegisterB,
    PaletteRegisterC,
    PaletteRegisterD,
    PaletteRegisterE,
    PaletteRegisterF,
    ModeControl,
    OverscanColor,
    MemoryPlaneEnable,
    HorizontalPixelPanning,
    ColorSelect,
}

impl AttributeControllerIndex {
    /// The numeric index written to the group's address port.
    pub open spec fn index(self) -> int {
        match self {
            AttributeControllerIndex::PaletteRegister0 => 0,
            AttributeControllerIndex::PaletteRegister1 => 1,
            AttributeControllerIndex::PaletteRegister2 => 2,
            AttributeControllerIndex::PaletteRegister3 => 3,
            AttributeControllerIndex::PaletteRegister4 => 4,
            AttributeControllerIndex::PaletteRegister5 => 5,
            AttributeControllerIndex::PaletteRegister6 => 6,
            AttributeControllerIndex::PaletteRegister7 => 7,
            AttributeControllerIndex::PaletteRegister8 => 8,
            AttributeControllerIndex::PaletteRegister9 => 9,
            AttributeControllerIndex::PaletteRegisterA => 10,
            AttributeControllerIndex::PaletteRegisterB => 11,
            AttributeControllerIndex::PaletteRegisterC => 12,
            AttributeControllerIndex::PaletteRegisterD => 13,
            AttributeControllerIndex::PaletteRegisterE => 14,
            AttributeControllerIndex::PaletteRegisterF => 15,
            AttributeControllerIndex::ModeControl => 16,
            AttributeControllerIndex::OverscanColor => 17,
            AttributeControllerIndex::MemoryPlaneEnable => 18,
            AttributeControllerIndex::HorizontalPixelPanning => 19,
            AttributeControllerIndex::ColorSelect => 20,
        }
    }

    pub fn to_index(self) -> (i: u8)
        ensures
            i as int == self.index(),
            i < ATTRIBUTE_REGISTER_COUNT,
    {
        match self {
            AttributeControllerIndex::PaletteRegister0 => 0,
            AttributeControllerIndex::PaletteRegister1 => 1,
            AttributeControllerIndex::PaletteRegister2 => 2,
            AttributeControllerIndex::PaletteRegister3 => 3,
            AttributeControllerIndex::PaletteRegister4 => 4,
            AttributeControllerIndex::PaletteRegister5 => 5,
            AttributeControllerIndex::PaletteRegister6 => 6,
            AttributeControllerIndex::PaletteRegister7 => 7,
            AttributeControllerIndex::PaletteRegister8 => 8,
            AttributeControllerIndex::PaletteRegister9 => 9,
            AttributeControllerIndex::PaletteRegisterA => 10,
            AttributeControllerIndex::PaletteRegisterB => 11,
            AttributeControllerIndex::PaletteRegisterC => 12,
            AttributeControllerIndex::PaletteRegisterD => 13,
            AttributeControllerIndex::PaletteRegisterE => 14,
            AttributeControllerIndex::PaletteRegisterF => 15,
            AttributeControllerIndex::ModeControl => 16,
            AttributeControllerIndex::OverscanColor => 17,
            AttributeControllerIndex::MemoryPlaneEnable => 18,
            AttributeControllerIndex::HorizontalPixelPanning => 19,
            AttributeControllerIndex::ColorSelect => 20,
        }
    }
}

/// One index/data write to a register group, as recorded in the device's
/// write log.  The miscellaneous output register is a single register with
/// no index of its own.
#[derive(Clone, Copy, Debug, PartialEq, Eq, Structural)]
pub enum RegisterWrite {
    MiscellaneousOutput(u8),
    Sequencer(SequencerIndex, u8),
    CrtcController(CrtcControllerIndex, u8),
    GraphicsController(GraphicsControllerIndex, u8),
    AttributeController(AttributeControllerIndex, u8),
}

} // verus!
