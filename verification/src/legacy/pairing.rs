//! Wireless pairing (Report ID 0xFF, type 12) and link state (type 13).
//!
//! ## StartPairing (Report ID 0xFF, type 12)
//!
//! 3-byte payload: `0x02 0x00 0x40` (start pairing command).
//!
//! ## LinkStateNotify (Report ID 0xFF, type 13)
//!
//! 5-byte payload. The sub-command header has not been confirmed; the
//! payload is zeroed until live testing reveals the correct header.

use vstd::prelude::*;
use crate::report::{build, Report};

verus! {

/// Encode a start-pairing report (report ID 0xFF, type 12).
pub fn encode_start_pairing() -> (r: Report)
    ensures
        r.carries(0xFF, seq![0x02u8, 0x00u8, 0x40u8]),
{
    let payload: [u8; 3] = [0x02, 0x00, 0x40];
    assert(payload@ =~= seq![0x02u8, 0x00u8, 0x40u8]);
    build(0xFF, &payload)
}

/// Encode a link-state-notify report (report ID 0xFF, type 13).
///
/// 5-byte zero payload: the sub-command header has not been confirmed.
pub fn encode_link_state_notify() -> (r: Report)
    ensures
        r.carries(0xFF, seq![0u8, 0u8, 0u8, 0u8, 0u8]),
{
    let payload: [u8; 5] = [0u8; 5];
    assert(payload@ =~= seq![0u8, 0u8, 0u8, 0u8, 0u8]);
    build(0xFF, &payload)
}

} // verus!
