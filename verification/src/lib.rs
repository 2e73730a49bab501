//! A verified model of a minimal VGA display driver.
//!
//! The crate models the VGA controller's register files and framebuffer
//! windows as plain data, programs a display mode by writing the register
//! configuration tables in the order the hardware mandates, and builds
//! pixel, line and character drawing primitives on top of the resulting
//! memory model.  Every operation carries a contract: mode application is
//! shown to write exactly the configured entries in order, and the drawing
//! primitives are shown to touch exactly the pixels they name.

pub mod colors;
pub mod configurations;
pub mod device;
pub mod font;
pub mod line;
pub mod modes;
pub mod registers;
pub mod surface;
