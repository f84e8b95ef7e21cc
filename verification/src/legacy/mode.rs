//! Device operating mode (Report ID 0x65 input, 0xC8 output).
//!
//! 2-byte payload:
//! - Byte 0: `OperatingMode` enum (Hardware=0, Software=1)
//! - Byte 1: bit 0 = media events disabled flag

use vstd::prelude::*;
use crate::bits::lemma_byte_masks;
use crate::error::DecodeError;
use crate::legacy::types::OperatingMode;
use crate::report::{build, Report};

verus! {

/// Decoded device mode report.
#[derive(Debug, Clone, Copy, PartialEq, Eq, Structural)]
pub struct DeviceMode {
    pub mode: OperatingMode,
    pub media_events_disabled: bool,
}

/// What the payload of a device mode report (at least 2 bytes) decodes to.
pub open spec fn device_mode_of(p: Seq<u8>) -> Result<DeviceMode, DecodeError> {
    match OperatingMode::of_byte(p[0]) {
        Some(mode) => Ok(DeviceMode { mode, media_events_disabled: p[1] % 2 == 1 }),
        None => Err(DecodeError::InvalidValue { field: "operating_mode", value: p[0] }),
    }
}

/// Decode a device mode input report (report ID 0x65).
pub fn decode_device_mode(report: &Report) -> (res: Result<DeviceMode, DecodeError>)
    ensures
        report.report_id() != 0x65 ==> res == Err::<DeviceMode, DecodeError>(
            DecodeError::WrongReportId { expected: 0x65, actual: report.report_id() }),
        report.report_id() == 0x65 && report.payload_len() < 2 ==> res == Err::<DeviceMode, DecodeError>(
            DecodeError::TooShort { need: 2, got: report.payload_len() as usize }),
        report.report_id() == 0x65 && report.payload_len() >= 2 ==> res == device_mode_of(report.buffer()),
{
    let id = report.id();
    if id != 0x65 {
        return Err(DecodeError::WrongReportId { expected: 0x65, actual: id });
    }
    let len = report.len();
    if len < 2 {
        return Err(DecodeError::TooShort { need: 2, got: len });
    }
    let p = report.payload();
    let mode = match OperatingMode::from_byte(p[0]) {
        Some(m) => m,
        None => {
            return Err(DecodeError::InvalidValue { field: "operating_mode", value: p[0] });
        },
    };
    proof {
        lemma_byte_masks(p@[1]);
    }
    let media_events_disabled = (p[1] & 0x01) != 0;
    Ok(DeviceMode { mode, media_events_disabled })
}

/// Encode a set-device-mode output report (report ID 0xC8).
///
/// The payload is the 2 bytes the descriptor declares: the mode, then the
/// media-events flag, left clear so that media keys keep working.
pub fn encode_set_device_mode(mode: OperatingMode) -> (r: Report)
    ensures
        r.carries(0xC8, seq![mode.value(), 0u8]),
{
    let payload = [mode.to_byte(), 0u8];
    assert(payload@ =~= seq![mode.value(), 0u8]);
    build(0xC8, &payload)
}

} // verus!
