//! Core types and constants for the Bragi protocol.

use vstd::prelude::*;

verus! {

/// Standard inter-report wait time (milliseconds).
pub const WAIT_TIME_MS: u64 = 20;

/// Extended wait time for operations that need extra settling (milliseconds).
pub const WAIT_TIME_LONG_MS: u64 = 750;

/// Maximum wait time for slow operations like firmware queries (milliseconds).
pub const WAIT_TIME_VERY_LONG_MS: u64 = 2000;

/// Battery status reported by the Bragi `BatteryStatus` property.
#[derive(Debug, Clone, Copy, PartialEq, Eq, Structural)]
pub enum BatteryStatus {
    /// Discharging (normal operation on battery), value 1.
    Discharging,
    /// Currently charging, value 2.
    Charging,
    /// Fully charged, value 3.
    FullyCharged,
}

impl BatteryStatus {
    /// The property value of this status.
    pub open spec fn value(self) -> u8 {
        match self {
            BatteryStatus::Discharging => 1,
            BatteryStatus::Charging => 2,
            BatteryStatus::FullyCharged => 3,
        }
    }

    /// The status whose property value is `v`, if any.
    pub open spec fn of_byte(v: u8) -> Option<BatteryStatus> {
        if v == 1 { Some(BatteryStatus::Discharging) }
        else if v == 2 { Some(BatteryStatus::Charging) }
        else if v == 3 { Some(BatteryStatus::FullyCharged) }
        else { None }
    }

    /// Decode from the raw property value.
    pub fn from_byte(val: u8) -> (s: Option<Self>)
        ensures
            s == Self::of_byte(val),
    {
        match val {
            1 => Some(Self::Discharging),
            2 => Some(Self::Charging),
            3 => Some(Self::FullyCharged),
            _ => None,
        }
    }

    /// The property value of this status.
    pub fn to_byte(self) -> (v: u8)
        ensures
            v == self.value(),
    {
        match self {
            Self::Discharging => 1,
            Self::Charging => 2,
            Self::FullyCharged => 3,
        }
    }

    /// Whether the device is connected to a power source (charging or full).
    pub fn is_on_power(self) -> (b: bool)
        ensures
            b == (self == BatteryStatus::Charging || self == BatteryStatus::FullyCharged),
    {
        matches!(self, Self::Charging | Self::FullyCharged)
    }
}

/// Device operating mode reported by the Bragi `OperatingMode` property
/// (values 0, 1 in order).
#[derive(Debug, Clone, Copy, PartialEq, Eq, Structural)]
pub enum OperatingMode {
    /// Hardware mode (standalone, no host software control).
    Hardware,
    /// Software mode (software-controlled).
    Software,
}

impl OperatingMode {
    /// The property value of this mode.
    pub open spec fn value(self) -> u8 {
        match self {
            OperatingMode::Hardware => 0,
            OperatingMode::Software => 1,
        }
    }

    /// The mode whose property value is `v`, if any.
    pub open spec fn of_byte(v: u8) -> Option<OperatingMode> {
        if v == 0 { Some(OperatingMode::Hardware) }
        else if v == 1 { Some(OperatingMode::Software) }
        else { None }
    }

    /// Decode from the raw property value.
    pub fn from_byte(val: u8) -> (m: Option<Self>)
        ensures
            m == Self::of_byte(val),
    {
        match val {
            0 => Some(Self::Hardware),
            1 => Some(Self::Software),
            _ => None,
        }
    }
}

/// Wireless connection mode reported by the Bragi `WirelessMode` property
/// (values 0, 1, 2 in order).
#[derive(Debug, Clone, Copy, PartialEq, Eq, Structural)]
pub enum WirelessMode {
    /// Connected via 2.4 GHz Slipstream wireless.
    Slipstream,
    /// Connected via Bluetooth.
    Bluetooth,
    /// Wired USB connection (wireless disabled).
    Wired,
}

impl WirelessMode {
    /// The property value of this mode.
    pub open spec fn value(self) -> u8 {
        match self {
            WirelessMode::Slipstream => 0,
            WirelessMode::Bluetooth => 1,
            WirelessMode::Wired => 2,
        }
    }

    /// The mode whose property value is `v`, if any.
    pub open spec fn of_byte(v: u8) -> Option<WirelessMode> {
        if v == 0 { Some(WirelessMode::Slipstream) }
        else if v == 1 { Some(WirelessMode::Bluetooth) }
        else if v == 2 { Some(WirelessMode::Wired) }
        else { None }
    }

    /// Decode from the raw property value.
    pub fn from_byte(val: u8) -> (m: Option<Self>)
        ensures
            m == Self::of_byte(val),
    {
        match val {
            0 => Some(Self::Slipstream),
            1 => Some(Self::Bluetooth),
            2 => Some(Self::Wired),
            _ => None,
        }
    }
}

/// Bragi status and mode values and their property bytes determine each other.
pub proof fn lemma_bragi_values_roundtrip(s: BatteryStatus, m: OperatingMode, w: WirelessMode, b: u8)
    ensures
        BatteryStatus::of_byte(s.value()) == Some(s),
        BatteryStatus::of_byte(b) matches Some(x) ==> x.value() == b,
        OperatingMode::of_byte(m.value()) == Some(m),
        OperatingMode::of_byte(b) matches Some(x) ==> x.value() == b,
        WirelessMode::of_byte(w.value()) == Some(w),
        WirelessMode::of_byte(b) matches Some(x) ==> x.value() == b,
{
}

} // verus!
