//! State report (Report ID 0x64) — battery, mic boom, buttons, link state.
//!
//! The HID descriptor declares a **9-byte** payload for this report. The
//! first 4 bytes contain the core state fields; bytes 4–8 contain
//! additional flags that are not decoded.
//!
//! ```text
//! Byte 0: Pressed buttons bitmap
//! Byte 1: Battery level (bits 0–6 = 0–127), bit 7 = mic boom state
//! Byte 2: LinkState (lower nibble, bits 0–3)
//! Byte 3: BatteryState enum (lower 3 bits)
//! ```

use vstd::prelude::*;
use crate::bits::lemma_byte_masks;
use crate::error::DecodeError;
use crate::legacy::types::{BatteryState, LinkState};
use crate::report::Report;

verus! {

/// Decoded state report.
#[derive(Debug, Clone, Copy, PartialEq, Eq, Structural)]
pub struct HeadsetState {
    /// Pressed buttons bitmap.
    pub buttons: u8,
    /// Battery level as a percentage (0–100, clamped from 0–127 raw).
    pub battery_percent: u8,
    /// Whether the mic boom is up (mic muted on most models).
    pub mic_boom_up: bool,
    /// Wireless link state.
    pub link_state: LinkState,
    /// Battery charging state.
    pub battery_state: BatteryState,
}

/// The battery percentage in byte 1 of a state report: its low 7 bits,
/// clamped to 100.
pub open spec fn battery_percent_of(b: u8) -> u8 {
    if b % 128 > 100 { 100 } else { (b % 128) as u8 }
}

/// What the payload of a state report (at least 4 bytes) decodes to.
///
/// An unknown link state reads as `Invalid`; an unknown battery state is an
/// error.
pub open spec fn state_of(p: Seq<u8>) -> Result<HeadsetState, DecodeError> {
    match BatteryState::of_bits(p[3]) {
        Some(battery_state) => Ok(HeadsetState {
            buttons: p[0],
            battery_percent: battery_percent_of(p[1]),
            mic_boom_up: p[1] < 128,
            link_state: match LinkState::of_nibble(p[2]) {
                Some(l) => l,
                None => LinkState::Invalid,
            },
            battery_state,
        }),
        None => Err(DecodeError::InvalidValue { field: "battery_state", value: p[3] }),
    }
}

/// Decode a state report (report ID 0x64).
///
/// `report` should be parsed from a HID input callback via [`Report::from_input`].
pub fn decode_state(report: &Report) -> (res: Result<HeadsetState, DecodeError>)
    ensures
        report.report_id() != 0x64 ==> res == Err::<HeadsetState, DecodeError>(
            DecodeError::WrongReportId { expected: 0x64, actual: report.report_id() }),
        report.report_id() == 0x64 && report.payload_len() < 4 ==> res == Err::<HeadsetState, DecodeError>(
            DecodeError::TooShort { need: 4, got: report.payload_len() as usize }),
        report.report_id() == 0x64 && report.payload_len() >= 4 ==> res == state_of(report.buffer()),
{
    let id = report.id();
    if id != 0x64 {
        return Err(DecodeError::WrongReportId { expected: 0x64, actual: id });
    }
    let len = report.len();
    if len < 4 {
        return Err(DecodeError::TooShort { need: 4, got: len });
    }
    let p = report.payload();
    proof {
        lemma_byte_masks(p@[1]);
    }
    let buttons = p[0];
    let raw_battery = p[1];
    let low = raw_battery & 0x7F;
    let battery_percent = if low > 100 { 100 } else { low };
    let mic_boom_up = (raw_battery & 0x80) == 0;
    let link_state = match LinkState::from_nibble(p[2]) {
        Some(l) => l,
        None => LinkState::Invalid,
    };
    let battery_state = match BatteryState::from_bits(p[3]) {
        Some(s) => s,
        None => {
            return Err(DecodeError::InvalidValue { field: "battery_state", value: p[3] });
        },
    };
    Ok(HeadsetState { buttons, battery_percent, mic_boom_up, link_state, battery_state })
}

/// What a state report says, field by field: byte 0 is the buttons bitmap;
/// byte 1 holds the battery percentage in its low 7 bits (clamped to 100)
/// and a clear bit 7 when the mic boom is up; byte 3's low 3 bits give the
/// battery state — 2 is Low and 3 is Shutdown (critical), 0, 1, 4, 5 and 6
/// are Invalid, Normal, ChargeComplete, Charging and Error — and 7 is
/// refused.
pub proof fn lemma_state_report_fields(p: Seq<u8>)
    requires
        p.len() >= 4,
    ensures
        p[3] % 8 == 7 <==> state_of(p) is Err,
        state_of(p) matches Ok(s) ==> {
            &&& s.buttons == p[0]
            &&& s.battery_percent == if p[1] % 128 > 100 { 100 } else { p[1] % 128 }
            &&& s.mic_boom_up == (p[1] < 128)
            &&& (p[3] % 8 == 0 <==> s.battery_state == BatteryState::Invalid)
            &&& (p[3] % 8 == 1 <==> s.battery_state == BatteryState::Normal)
            &&& (p[3] % 8 == 2 <==> s.battery_state == BatteryState::Low)
            &&& (p[3] % 8 == 3 <==> s.battery_state == BatteryState::Shutdown)
            &&& (p[3] % 8 == 4 <==> s.battery_state == BatteryState::ChargeComplete)
            &&& (p[3] % 8 == 5 <==> s.battery_state == BatteryState::Charging)
            &&& (p[3] % 8 == 6 <==> s.battery_state == BatteryState::Error)
        },
{
}

} // verus!
