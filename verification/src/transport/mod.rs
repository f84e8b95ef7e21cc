//! Host-side transport decisions for Corsair HID devices.
//!
//! Corsair devices use two HID collections on different vendor-specific usage pages:
//! - **0xFFC5** — output reports (commands to device)
//! - **0xFF00** — feature reports
//!
//! The HID I/O itself is done by the application; this module holds what it
//! decides: which interfaces belong to a Corsair headset, which report kind
//! a send uses, and how long to wait between paced sends.

pub mod error;
pub mod paced;

pub use error::TransportError;
pub use paced::PacedTransport;

use vstd::prelude::*;
use crate::types::CORSAIR_VID;

verus! {

/// Which HID report mechanism to use when sending.
#[derive(Debug, Clone, Copy, PartialEq, Eq, Structural)]
pub enum HidReportKind {
    /// HID output report on usage page 0xFFC5.
    Output,
    /// HID feature report on usage page 0xFF00.
    Feature,
}

/// Information about a discovered Corsair HID device.
#[derive(Debug, Clone)]
pub struct CorsairDeviceInfo {
    /// USB vendor ID.
    pub vid: u16,
    /// USB product ID.
    pub pid: u16,
    /// Product name from the HID descriptor.
    pub name: Option<String>,
    /// OS-specific device path (used to open the device).
    pub path: String,
    /// HID usage page this interface was found on.
    pub usage_page: u16,
    /// HID usage ID.
    pub usage: u16,
}

/// Corsair vendor-specific usage page for output/input reports.
pub const USAGE_PAGE_OUTPUT: u16 = 0xFFC5;

/// Corsair vendor-specific usage page for feature reports.
pub const USAGE_PAGE_FEATURE: u16 = 0xFF00;

/// An interface belongs to a Corsair device and one of its vendor collections.
pub open spec fn corsair_interface(vid: u16, usage_page: u16) -> bool {
    vid == CORSAIR_VID && (usage_page == USAGE_PAGE_OUTPUT || usage_page == USAGE_PAGE_FEATURE)
}

/// Whether an enumerated HID interface is listed: Corsair vendor ID and one
/// of the two vendor-specific usage pages.
pub fn is_corsair_interface(vid: u16, usage_page: u16) -> (b: bool)
    ensures
        b == corsair_interface(vid, usage_page),
{
    vid == CORSAIR_VID && (usage_page == USAGE_PAGE_OUTPUT || usage_page == USAGE_PAGE_FEATURE)
}

/// An interface is the headset's output collection: Corsair vendor ID on
/// usage page 0xFFC5.
pub open spec fn headset_output_interface(iface: (u16, u16)) -> bool {
    iface.0 == CORSAIR_VID && iface.1 == USAGE_PAGE_OUTPUT
}

/// The position of the first interface, given as (vendor ID, usage page),
/// that is a headset's output collection; `None` when there is none.
pub fn find_headset_interface(ifaces: &[(u16, u16)]) -> (i: Option<usize>)
    ensures
        i matches Some(k) ==> k < ifaces@.len() && headset_output_interface(ifaces@[k as int])
            && forall|j: int| 0 <= j < k ==> !headset_output_interface(#[trigger] ifaces@[j]),
        i is None ==> forall|j: int| 0 <= j < ifaces@.len() ==> !headset_output_interface(#[trigger] ifaces@[j]),
{
    let mut k: usize = 0;
    while k < ifaces.len()
        invariant
            k <= ifaces@.len(),
            forall|j: int| 0 <= j < k ==> !headset_output_interface(#[trigger] ifaces@[j]),
        decreases ifaces@.len() - k,
    {
        let (vid, page) = ifaces[k];
        if vid == CORSAIR_VID && page == USAGE_PAGE_OUTPUT {
            return Some(k);
        }
        k = k + 1;
    }
    None
}

/// How long the input reader waits after a read that returned nothing.
pub const READ_IDLE_BACKOFF_MS: u64 = 1;

/// How long the input reader waits after a failed read.
pub const READ_ERROR_BACKOFF_MS: u64 = 50;

/// What the input reader does after a read: `read` is the number of bytes
/// read, or `None` when the read failed. Returns how many milliseconds to
/// wait before reading again, or `None` when the bytes are to be parsed and
/// the next read follows at once.
pub fn read_backoff_ms(read: Option<usize>) -> (wait: Option<u64>)
    ensures
        read is None ==> wait == Some(READ_ERROR_BACKOFF_MS),
        read == Some(0usize) ==> wait == Some(READ_IDLE_BACKOFF_MS),
        (read matches Some(n) && n > 0) ==> wait is None,
{
    match read {
        None => Some(READ_ERROR_BACKOFF_MS),
        Some(0) => Some(READ_IDLE_BACKOFF_MS),
        Some(_) => None,
    }
}

} // verus!
