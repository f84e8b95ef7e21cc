//! USB identifiers of Corsair devices.

use vstd::prelude::*;
use crate::text::{hex_text, push_hex_padded, push_str, zero_pad};

verus! {

/// Corsair USB Vendor ID (current), as the raw 16-bit value.
pub const CORSAIR_VID: u16 = 0x1B1C;

/// Corsair USB Vendor ID (legacy, used for bootloaders), as the raw 16-bit value.
pub const CORSAIR_VID_LEGACY: u16 = 0x170D;

/// USB Vendor ID.
#[derive(Debug, Clone, Copy, PartialEq, Eq, Hash, Structural)]
pub struct VendorId(pub u16);

/// USB Product ID.
#[derive(Debug, Clone, Copy, PartialEq, Eq, Hash, Structural)]
pub struct ProductId(pub u16);

/// Combined VID + PID device identifier.
#[derive(Debug, Clone, Copy, PartialEq, Eq, Hash, Structural)]
pub struct DeviceId {
    pub vid: VendorId,
    pub pid: ProductId,
}

/// `0x` followed by four upper-case hex digits: how a USB identifier is shown.
pub open spec fn usb_id_text(v: u16) -> Seq<char> {
    "0x"@ + zero_pad(hex_text(v as nat), 4)
}

impl VendorId {
    /// Text form, e.g. `0x1B1C`.
    pub fn to_string(&self) -> (s: String)
        ensures
            s@ == usb_id_text(self.0),
    {
        let mut s = String::from_str("0x");
        push_hex_padded(&mut s, self.0 as u64, 4);
        s
    }
}

impl ProductId {
    /// Text form, e.g. `0x0A51`.
    pub fn to_string(&self) -> (s: String)
        ensures
            s@ == usb_id_text(self.0),
    {
        let mut s = String::from_str("0x");
        push_hex_padded(&mut s, self.0 as u64, 4);
        s
    }
}

impl DeviceId {
    /// Build a device identifier from raw vendor and product IDs.
    pub fn new(vid: u16, pid: u16) -> (d: Self)
        ensures
            d.vid.0 == vid,
            d.pid.0 == pid,
    {
        Self { vid: VendorId(vid), pid: ProductId(pid) }
    }

    /// Shorthand for Corsair VID (0x1B1C) + a product ID.
    pub fn corsair(pid: u16) -> (d: Self)
        ensures
            d.vid.0 == CORSAIR_VID,
            d.pid.0 == pid,
    {
        Self::new(CORSAIR_VID, pid)
    }

    /// Text form `VID:PID`, e.g. `0x1B1C:0x0A51`.
    pub fn to_string(&self) -> (s: String)
        ensures
            s@ == usb_id_text(self.vid.0) + ":"@ + usb_id_text(self.pid.0),
    {
        let mut s = self.vid.to_string();
        push_str(&mut s, ":");
        let p = self.pid.to_string();
        push_str(&mut s, p.as_str());
        s
    }
}

} // verus!
