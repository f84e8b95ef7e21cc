//! Firmware version report (Report ID 0x66).
//!
//! 4-byte payload: 2-byte transmitter version + 2-byte receiver version.

use vstd::prelude::*;
use crate::error::DecodeError;
use crate::report::Report;
use crate::text::{dec_text, push_decimal, push_str};

verus! {

/// Decoded firmware version.
#[derive(Debug, Clone, Copy, PartialEq, Eq, Structural)]
pub struct FirmwareVersion {
    pub major: u8,
    pub minor: u8,
}

impl FirmwareVersion {
    /// The text form `major.minor`.
    pub open spec fn text(self) -> Seq<char> {
        dec_text(self.major as nat) + "."@ + dec_text(self.minor as nat)
    }

    /// Text form `major.minor`, e.g. `3.10`.
    pub fn to_string(&self) -> (s: String)
        ensures
            s@ == self.text(),
    {
        let mut s = String::new();
        push_decimal(&mut s, self.major as u64);
        push_str(&mut s, ".");
        push_decimal(&mut s, self.minor as u64);
        assert(s@ =~= self.text());
        s
    }
}

/// Decoded firmware version report.
#[derive(Debug, Clone, Copy, PartialEq, Eq, Structural)]
pub struct FirmwareInfo {
    /// Transmitter (headset) firmware version.
    pub transmitter: FirmwareVersion,
    /// Receiver (dongle) firmware version.
    pub receiver: FirmwareVersion,
}

/// What the payload of a firmware version report (at least 4 bytes) decodes to.
pub open spec fn firmware_info_of(p: Seq<u8>) -> FirmwareInfo {
    FirmwareInfo {
        transmitter: FirmwareVersion { major: p[0], minor: p[1] },
        receiver: FirmwareVersion { major: p[2], minor: p[3] },
    }
}

/// Decode a firmware version report (report ID 0x66).
pub fn decode_firmware_version(report: &Report) -> (res: Result<FirmwareInfo, DecodeError>)
    ensures
        report.report_id() != 0x66 ==> res == Err::<FirmwareInfo, DecodeError>(
            DecodeError::WrongReportId { expected: 0x66, actual: report.report_id() }),
        report.report_id() == 0x66 && report.payload_len() < 4 ==> res == Err::<FirmwareInfo, DecodeError>(
            DecodeError::TooShort { need: 4, got: report.payload_len() as usize }),
        report.report_id() == 0x66 && report.payload_len() >= 4 ==> res == Ok::<FirmwareInfo, DecodeError>(
            firmware_info_of(report.buffer())),
{
    let id = report.id();
    if id != 0x66 {
        return Err(DecodeError::WrongReportId { expected: 0x66, actual: id });
    }
    let len = report.len();
    if len < 4 {
        return Err(DecodeError::TooShort { need: 4, got: len });
    }
    let p = report.payload();
    Ok(FirmwareInfo {
        transmitter: FirmwareVersion { major: p[0], minor: p[1] },
        receiver: FirmwareVersion { major: p[2], minor: p[3] },
    })
}

} // verus!
