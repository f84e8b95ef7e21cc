//! Decisions of the menu bar application: decoding the headset's state
//! reports for display, the commands it sends, battery alerts, saved
//! settings, menu choices, the status texts, the sleep timer and the tray
//! icon bitmap.

pub mod headset;
pub mod settings;
pub mod notify;
pub mod status;
pub mod icon;
pub mod menu;
