//! CMA (Conexant) register addresses for the right logo zone.
//!
//! Used with CmaDirectLedControl (ReportType 7) to control zone 0x214
//! on headsets using the CMA path instead of TI.

use vstd::prelude::*;

verus! {

/// CMA register for the red channel.
pub const RED: u8 = 0x1C;
/// CMA register for the green channel.
pub const GREEN: u8 = 0x16;
/// CMA register for the blue channel.
pub const BLUE: u8 = 0x17;

} // verus!
