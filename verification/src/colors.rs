//! The sixteen named VGA colors.
//!
//! Each color maps to a 4-bit index value used both by the Attribute
//! Controller palette and by the pixel-write paths.

use vstd::prelude::*;

verus! {

/// One of the sixteen standard VGA colors.
#[derive(Clone, Copy, Debug, PartialEq, Eq, Structural)]
pub enum Color16 {
    Black,
    Blue,
    Green,
    Cyan,
    Red,
    Magenta,
    Brown,
    LightGrey,
    DarkGrey,
    LightBlue,
    LightGreen,
    LightCyan,
    LightRed,
    Pink,
    Yellow,
    White,
}

impl Color16 {
    /// The 4-bit index value of this color.
    pub open spec fn value(self) -> u8 {
        match self {
            Color16::Black => 0,
            Color16::Blue => 1,
            Color16::Green => 2,
            Color16::Cyan => 3,
            Color16::Red => 4,
            Color16::Magenta => 5,
            Color16::Brown => 6,
            Color16::LightGrey => 7,
            Color16::DarkGrey => 8,
            Color16::LightBlue => 9,
            Color16::LightGreen => 10,
            Color16::LightCyan => 11,
            Color16::LightRed => 12,
            Color16::Pink => 13,
            Color16::Yellow => 14,
            Color16::White => 15,
        }
    }

    pub fn to_u8(self) -> (v: u8)
        ensures
            v == self.value(),
            v < 16,
    {
        match self {
            Color16::Black => 0,
            Color16::Blue => 1,
            Color16::Green => 2,
            Color16::Cyan => 3,
            Color16::Red => 4,
            Color16::Magenta => 5,
            Color16::Brown => 6,
            Color16::LightGrey => 7,
            Color16::DarkGrey => 8,
            Color16::LightBlue => 9,
            Color16::LightGreen => 10,
            Color16::LightCyan => 11,
            Color16::LightRed => 12,
            Color16::Pink => 13,
            Color16::Yellow => 14,
            Color16::White => 15,
        }
    }
}

} // verus!
