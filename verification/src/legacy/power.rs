//! Power state and auto-shutdown (Report IDs 0xCC and 0xFF type 9).
//!
//! ## SetPowerState (Report ID 0xCC)
//!
//! 1-byte payload: `PowerDownState` (0=Invalid, 1=Reset, 2=Shutdown).
//!
//! ## SetAutoShutdown (Report ID 0xFF, type 9)
//!
//! 10-byte payload. The sub-command header is not confirmed; the timeout is
//! a little-endian `u16` in minutes at bytes 8–9, the rest zeroed.

use vstd::prelude::*;
use crate::legacy::types::PowerDownState;
use crate::report::{build, Report};

verus! {

/// Encode a set-power-state report (report ID 0xCC).
pub fn encode_set_power_state(state: PowerDownState) -> (r: Report)
    ensures
        r.carries(0xCC, seq![state.value()]),
{
    let payload = [state.to_byte()];
    assert(payload@ =~= seq![state.value()]);
    build(0xCC, &payload)
}

/// Encode a reset command (report ID 0xCC, [`PowerDownState::Reset`]).
pub fn encode_reset() -> (r: Report)
    ensures
        r.carries(0xCC, seq![1u8]),
{
    encode_set_power_state(PowerDownState::Reset)
}

/// Encode a shutdown command (report ID 0xCC, [`PowerDownState::Shutdown`]).
pub fn encode_shutdown() -> (r: Report)
    ensures
        r.carries(0xCC, seq![2u8]),
{
    encode_set_power_state(PowerDownState::Shutdown)
}

/// The 10-byte auto-shutdown payload: eight zero bytes, then the timeout in
/// minutes, little-endian.
pub open spec fn auto_shutdown_payload(timeout_minutes: u16) -> Seq<u8> {
    seq![0u8, 0u8, 0u8, 0u8, 0u8, 0u8, 0u8, 0u8,
        (timeout_minutes % 256) as u8, (timeout_minutes / 256) as u8]
}

/// Encode a set-auto-shutdown-timer report (report ID 0xFF, type 9).
///
/// `timeout_minutes`: auto-shutdown timeout in minutes (0 = disabled).
pub fn encode_set_auto_shutdown(timeout_minutes: u16) -> (r: Report)
    ensures
        r.carries(0xFF, auto_shutdown_payload(timeout_minutes)),
{
    let lo = (timeout_minutes % 256) as u8;
    let hi = (timeout_minutes / 256) as u8;
    let payload: [u8; 10] = [0x00, 0x00, 0x00, 0x00, 0x00, 0x00, 0x00, 0x00, lo, hi];
    assert(payload@ =~= auto_shutdown_payload(timeout_minutes));
    build(0xFF, &payload)
}

} // verus!
