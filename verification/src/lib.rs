//! Protocol codecs and host-side logic for Corsair wireless headsets.
//!
//! The crate covers the Legacy headset protocol (VOID, HS60, HS70), the
//! Bragi value scales, the CAPE command format of the Conexant audio chip,
//! the device catalog, and the decisions that the tray application makes
//! (battery alerts, settings, sleep timer, report pacing).

pub mod text;
pub mod bits;
pub mod types;
pub mod error;
pub mod report;
pub mod legacy;
pub mod cxaudio;
pub mod bragi;
pub mod devices;
pub mod transport;
pub mod tray;

pub use error::{DecodeError, ProtocolError};
pub use report::Report;
pub use types::{DeviceId, ProductId, VendorId};
