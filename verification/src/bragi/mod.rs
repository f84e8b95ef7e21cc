//! Corsair Bragi Protocol.
//!
//! Property-based HID protocol for newer devices (HS80, HS55, keyboards, mice).

pub mod convert;
pub mod types;
