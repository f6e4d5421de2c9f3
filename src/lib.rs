//! Status-indicator panel core: renders seven keyboard/machine flags as
//! fixed glyphs on a 128x32 monochrome buffer, and sequences the panel's
//! power-up before the first frame is shown.

pub mod geometry;
pub mod glyph;
pub mod buffer;
pub mod bringup;
pub mod display;
