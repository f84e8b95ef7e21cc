//! Set value (Report ID 0xCA) and request data (Report ID 0xC9).
//!
//! ## SetValue (0xCA)
//!
//! Generic "set parameter" command. The payload is always 4 bytes, the size
//! the HID descriptor declares for this output report:
//! ```text
//! Byte 0: ValueId enum
//! Byte 1: value byte
//! Byte 2: 0 (reserved)
//! Byte 3: 0 (reserved)
//! ```
//!
//! ## RequestData (0xC9)
//!
//! Polls the device for a specific input report:
//! ```text
//! Byte 0: ReportId of the report to request
//! ```

use vstd::prelude::*;
use crate::legacy::types::{ReportId, ValueId};
use crate::report::{build, Report};

verus! {

/// `1` for true, `0` for false.
pub open spec fn bool_byte(b: bool) -> u8 {
    if b { 1 } else { 0 }
}

/// `1` for true, `0` for false.
pub fn bool_to_byte(b: bool) -> (v: u8)
    ensures
        v == bool_byte(b),
{
    if b { 1 } else { 0 }
}

/// The 4-byte SetValue payload: the selector, the value, two zero bytes.
pub open spec fn set_value_payload(id: u8, value: u8) -> Seq<u8> {
    seq![id, value, 0u8, 0u8]
}

/// Encode a set-value report with a typed [`ValueId`], zero-padded to the
/// 4-byte payload that the descriptor declares.
pub fn encode_set_value(id: ValueId, value: u8) -> (r: Report)
    ensures
        r.carries(0xCA, set_value_payload(id.value(), value)),
{
    let payload = [id.to_byte(), value, 0u8, 0u8];
    assert(payload@ =~= set_value_payload(id.value(), value));
    build(0xCA, &payload)
}

/// Encode a mic mute command.
pub fn encode_set_mic_mute(muted: bool) -> (r: Report)
    ensures
        r.carries(0xCA, set_value_payload(ValueId::MicState.value(), bool_byte(muted))),
{
    encode_set_value(ValueId::MicState, bool_to_byte(muted))
}

/// Encode an EQ preset index selection.
pub fn encode_set_eq_preset(index: u8) -> (r: Report)
    ensures
        r.carries(0xCA, set_value_payload(ValueId::EqIndex.value(), index)),
{
    encode_set_value(ValueId::EqIndex, index)
}

/// Encode surround sound toggle.
pub fn encode_set_surround(enabled: bool) -> (r: Report)
    ensures
        r.carries(0xCA, set_value_payload(ValueId::SurroundState.value(), bool_byte(enabled))),
{
    encode_set_value(ValueId::SurroundState, bool_to_byte(enabled))
}

/// Encode a request-data report (report ID 0xC9).
///
/// The single payload byte is the [`ReportId`] of the input report to poll.
/// The device responds asynchronously with the requested report.
pub fn encode_request_data(report_id: ReportId) -> (r: Report)
    ensures
        r.carries(0xC9, seq![report_id.byte()]),
{
    let payload = [report_id.to_byte()];
    assert(payload@ =~= seq![report_id.byte()]);
    build(0xC9, &payload)
}

/// Request the device send a state report (battery, mic boom, buttons, link).
pub fn encode_request_state() -> (r: Report)
    ensures
        r.carries(0xC9, seq![0x64u8]),
{
    encode_request_data(ReportId::State)
}

/// Request the device send its current operating mode.
pub fn encode_request_device_mode() -> (r: Report)
    ensures
        r.carries(0xC9, seq![0x65u8]),
{
    encode_request_data(ReportId::DeviceModeIn)
}

/// Request the device send its firmware version.
pub fn encode_request_firmware_version() -> (r: Report)
    ensures
        r.carries(0xC9, seq![0x66u8]),
{
    encode_request_data(ReportId::FirmwareVersion)
}

} // verus!
