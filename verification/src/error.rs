//! Errors returned by the protocol decoders.

use vstd::prelude::*;
use crate::text::{dec_text, hex_text, push_decimal, push_hex_padded, push_str, zero_pad};

verus! {

/// Device-side protocol error returned in error responses.
#[derive(Debug, Clone, Copy, PartialEq, Eq, Structural)]
pub enum ProtocolError {
    /// Unknown or unrecognized error.
    Unknown,
    /// Invalid argument in the request.
    InvalidArgument,
    /// Value out of allowed range.
    OutOfRange,
    /// Hardware error on the device.
    HardwareError,
    /// Device is busy, try again.
    Busy,
    /// Requested feature/command not supported.
    Unsupported,
    /// Unrecognized error code from device.
    Other(u8),
}

/// The error that a device error code stands for.
pub open spec fn protocol_error_of(code: u8) -> ProtocolError {
    if code == 0x01 { ProtocolError::Unknown }
    else if code == 0x02 { ProtocolError::InvalidArgument }
    else if code == 0x03 { ProtocolError::OutOfRange }
    else if code == 0x04 { ProtocolError::HardwareError }
    else if code == 0x08 { ProtocolError::Busy }
    else if code == 0x09 { ProtocolError::Unsupported }
    else { ProtocolError::Other(code) }
}

/// `0x` followed by two upper-case hex digits.
pub open spec fn byte_hex_text(b: u8) -> Seq<char> {
    "0x"@ + zero_pad(hex_text(b as nat), 2)
}

impl ProtocolError {
    /// Decode an error code byte from the device.
    pub fn from_code(code: u8) -> (e: Self)
        ensures
            e == protocol_error_of(code),
    {
        match code {
            0x01 => Self::Unknown,
            0x02 => Self::InvalidArgument,
            0x03 => Self::OutOfRange,
            0x04 => Self::HardwareError,
            0x08 => Self::Busy,
            0x09 => Self::Unsupported,
            _ => Self::Other(code),
        }
    }

    /// The human-readable description of this error.
    pub open spec fn text(self) -> Seq<char> {
        match self {
            ProtocolError::Unknown => "unknown error"@,
            ProtocolError::InvalidArgument => "invalid argument"@,
            ProtocolError::OutOfRange => "out of range"@,
            ProtocolError::HardwareError => "hardware error"@,
            ProtocolError::Busy => "device busy"@,
            ProtocolError::Unsupported => "unsupported"@,
            ProtocolError::Other(code) => "error code "@ + byte_hex_text(code),
        }
    }

    /// Human-readable description, e.g. `device busy` or `error code 0x7F`.
    pub fn to_string(&self) -> (s: String)
        ensures
            s@ == self.text(),
    {
        match self {
            Self::Unknown => String::from_str("unknown error"),
            Self::InvalidArgument => String::from_str("invalid argument"),
            Self::OutOfRange => String::from_str("out of range"),
            Self::HardwareError => String::from_str("hardware error"),
            Self::Busy => String::from_str("device busy"),
            Self::Unsupported => String::from_str("unsupported"),
            Self::Other(code) => {
                let mut s = String::from_str("error code 0x");
                push_hex_padded(&mut s, *code as u64, 2);
                proof {
                    reveal_strlit("error code 0x");
                    reveal_strlit("error code ");
                    reveal_strlit("0x");
                }
                assert(s@ =~= self.text());
                s
            },
        }
    }
}

/// Decoding an error code loses nothing: distinct codes decode to distinct
/// errors.
pub proof fn lemma_protocol_error_of_injective(a: u8, b: u8)
    ensures
        protocol_error_of(a) == protocol_error_of(b) ==> a == b,
{
}

/// Errors encountered when decoding a report.
#[derive(Debug, Clone, PartialEq, Eq)]
pub enum DecodeError {
    /// The report payload was too short to parse.
    TooShort { need: usize, got: usize },
    /// Unexpected report ID.
    WrongReportId { expected: u8, actual: u8 },
    /// Device returned a protocol error.
    DeviceError(ProtocolError),
    /// The value of a field was not a recognized enum variant.
    InvalidValue { field: &'static str, value: u8 },
}

impl DecodeError {
    /// The human-readable description of this error.
    pub open spec fn text(self) -> Seq<char> {
        match self {
            DecodeError::TooShort { need, got } =>
                "report too short: need "@ + dec_text(need as nat) + " bytes, got "@ + dec_text(got as nat),
            DecodeError::WrongReportId { expected, actual } =>
                "wrong report ID: expected "@ + byte_hex_text(expected) + ", got "@ + byte_hex_text(actual),
            DecodeError::DeviceError(e) => "device error: "@ + e.text(),
            DecodeError::InvalidValue { field, value } =>
                "invalid "@ + field@ + " value: "@ + byte_hex_text(value),
        }
    }

    /// Human-readable description, e.g. `report too short: need 4 bytes, got 2`.
    pub fn to_string(&self) -> (s: String)
        ensures
            s@ == self.text(),
    {
        proof {
            reveal_strlit("0x");
            reveal_strlit(", got 0x");
            reveal_strlit(", got ");
            reveal_strlit("wrong report ID: expected 0x");
            reveal_strlit("wrong report ID: expected ");
            reveal_strlit(" value: 0x");
            reveal_strlit(" value: ");
        }
        match self {
            Self::TooShort { need, got } => {
                let mut s = String::from_str("report too short: need ");
                push_decimal(&mut s, *need as u64);
                push_str(&mut s, " bytes, got ");
                push_decimal(&mut s, *got as u64);
                s
            },
            Self::WrongReportId { expected, actual } => {
                let mut s = String::from_str("wrong report ID: expected 0x");
                push_hex_padded(&mut s, *expected as u64, 2);
                push_str(&mut s, ", got 0x");
                push_hex_padded(&mut s, *actual as u64, 2);
                assert(s@ =~= self.text());
                s
            },
            Self::DeviceError(e) => {
                let mut s = String::from_str("device error: ");
                let t = e.to_string();
                push_str(&mut s, t.as_str());
                s
            },
            Self::InvalidValue { field, value } => {
                let mut s = String::from_str("invalid ");
                push_str(&mut s, field);
                push_str(&mut s, " value: 0x");
                push_hex_padded(&mut s, *value as u64, 2);
                assert(s@ =~= self.text());
                s
            },
        }
    }
}

} // verus!
