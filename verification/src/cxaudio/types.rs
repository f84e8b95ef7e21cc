//! CxAudio chip types and constants.

use vstd::prelude::*;

verus! {

/// Conexant USB Vendor ID.
pub const CONEXANT_VID: u16 = 0x0572;

/// Conexant default USB Product ID.
pub const CONEXANT_PID: u16 = 0x1410;

/// CxAudio library version string.
pub const LIB_VERSION: &'static str = "1.0.48.0";

/// Maximum retries for CAPE SendCommand polling.
pub const CAPE_MAX_RETRIES: u32 = 999;

/// CAPE magic bytes in the module ID field.
pub const CAPE_MAGIC: u32 = 0xB32D23;

/// Chip variant / device type.
#[derive(Debug, Clone, Copy, PartialEq, Eq, Structural)]
pub enum ChipType {
    /// CX20562 — legacy chip, report IDs 0x08/0x09 (device type 0).
    Cx20562,
    /// CX2070x — report IDs 0x04/0x05, 33-byte reports (device type 1).
    Cx2070x,
    /// CX2076x — same report format as CX2070x (device type 2).
    Cx2076x,
    /// CX20805 (CAPE) — report ID 0x01, 62-byte reports (device type 6).
    Cx20805,
}

impl ChipType {
    /// The device type number of this chip variant.
    pub open spec fn dev_type(self) -> u8 {
        match self {
            ChipType::Cx20562 => 0,
            ChipType::Cx2070x => 1,
            ChipType::Cx2076x => 2,
            ChipType::Cx20805 => 6,
        }
    }

    /// The device type number of this chip variant.
    pub fn to_byte(self) -> (b: u8)
        ensures
            b == self.dev_type(),
    {
        match self {
            Self::Cx20562 => 0,
            Self::Cx2070x => 1,
            Self::Cx2076x => 2,
            Self::Cx20805 => 6,
        }
    }

    /// Output report ID for this chip.
    pub fn output_report_id(self) -> (id: u8)
        ensures
            id == match self {
                ChipType::Cx20562 => 0x08u8,
                ChipType::Cx2070x | ChipType::Cx2076x => 0x04u8,
                ChipType::Cx20805 => 0x01u8,
            },
    {
        match self {
            Self::Cx20562 => 0x08,
            Self::Cx2070x | Self::Cx2076x => 0x04,
            Self::Cx20805 => 0x01,
        }
    }

    /// Input report ID for this chip.
    pub fn input_report_id(self) -> (id: u8)
        ensures
            id == match self {
                ChipType::Cx20562 => 0x09u8,
                ChipType::Cx2070x | ChipType::Cx2076x => 0x05u8,
                ChipType::Cx20805 => 0x01u8,
            },
    {
        match self {
            Self::Cx20562 => 0x09,
            Self::Cx2070x | Self::Cx2076x => 0x05,
            Self::Cx20805 => 0x01,
        }
    }

    /// Output report size in bytes.
    pub fn output_report_size(self) -> (n: usize)
        ensures
            n == match self {
                ChipType::Cx20562 => 3usize,
                ChipType::Cx2070x | ChipType::Cx2076x => 33usize,
                ChipType::Cx20805 => 62usize,
            },
    {
        match self {
            Self::Cx20562 => 3,
            Self::Cx2070x | Self::Cx2076x => 33,
            Self::Cx20805 => 62,
        }
    }

    /// Input report size in bytes.
    pub fn input_report_size(self) -> (n: usize)
        ensures
            n == match self {
                ChipType::Cx20562 => 6usize,
                ChipType::Cx2070x | ChipType::Cx2076x => 37usize,
                ChipType::Cx20805 => 62usize,
            },
    {
        match self {
            Self::Cx20562 => 6,
            Self::Cx2070x | Self::Cx2076x => 37,
            Self::Cx20805 => 62,
        }
    }
}

/// Memory type for register/EEPROM operations (values 0–3 in order).
#[derive(Debug, Clone, Copy, PartialEq, Eq, Structural)]
pub enum MemType {
    Eeprom,
    Rom,
    Dram,
    Register,
}

/// Memory operation type (values 0, 1 in order).
#[derive(Debug, Clone, Copy, PartialEq, Eq, Structural)]
pub enum MemOp {
    Read,
    Write,
}

} // verus!
