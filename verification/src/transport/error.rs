//! Transport error types.

use vstd::prelude::*;

verus! {

/// Errors from the HID transport layer.
#[derive(Debug, Clone)]
pub enum TransportError {
    /// The requested device was not found.
    DeviceNotFound,
    /// An I/O error occurred communicating with the device.
    Io(String),
    /// Timed out waiting for a report from the device.
    Timeout,
    /// The device was disconnected.
    Disconnected,
}

impl TransportError {
    /// The human-readable description of this error.
    pub open spec fn text(&self) -> Seq<char> {
        match self {
            TransportError::DeviceNotFound => "device not found"@,
            TransportError::Io(msg) => "i/o error: "@ + msg@,
            TransportError::Timeout => "timeout waiting for report"@,
            TransportError::Disconnected => "device disconnected"@,
        }
    }

    /// Human-readable description, e.g. `i/o error: broken pipe`.
    pub fn to_string(&self) -> (s: String)
        ensures
            s@ == self.text(),
    {
        match self {
            Self::DeviceNotFound => String::from_str("device not found"),
            Self::Io(msg) => {
                let mut s = String::from_str("i/o error: ");
                s.append(msg.as_str());
                s
            },
            Self::Timeout => String::from_str("timeout waiting for report"),
            Self::Disconnected => String::from_str("device disconnected"),
        }
    }
}

} // verus!
