//! What the tray reads from and writes to the headset.

use vstd::prelude::*;
use crate::bits::lemma_byte_masks;
use crate::legacy::lighting::{color_pairs, encode_set_color, led_payload, LedZone};
use crate::legacy::types::{BatteryState, LinkState, ValueId};
use crate::legacy::value::{bool_byte, encode_set_value, set_value_payload};
use crate::report::Report;
use crate::text::{dec_text, push_decimal, push_str};

verus! {

/// Battery state as the tray shows it.
#[derive(Debug, Clone, Copy, PartialEq, Eq, Structural)]
pub enum BatteryInfo {
    /// Shown as `Ok`.
    Normal,
    Low,
    Critical,
    Full,
    Charging,
    Unknown,
}

impl BatteryInfo {
    /// The battery state in the lower 3 bits of `b`.
    pub open spec fn of_byte(b: u8) -> BatteryInfo {
        let v = b % 8;
        if v == 1 { BatteryInfo::Normal }
        else if v == 2 { BatteryInfo::Low }
        else if v == 3 { BatteryInfo::Critical }
        else if v == 4 { BatteryInfo::Full }
        else if v == 5 { BatteryInfo::Charging }
        else { BatteryInfo::Unknown }
    }

    /// Decode the battery state from the lower 3 bits of `b`.
    pub fn from_byte(b: u8) -> (i: Self)
        ensures
            i == Self::of_byte(b),
    {
        proof {
            lemma_byte_masks(b);
        }
        match b & 0x07 {
            1 => Self::Normal,
            2 => Self::Low,
            3 => Self::Critical,
            4 => Self::Full,
            5 => Self::Charging,
            _ => Self::Unknown,
        }
    }

    /// The label shown for this state.
    pub open spec fn text(self) -> Seq<char> {
        match self {
            BatteryInfo::Normal => "Ok"@,
            BatteryInfo::Low => "Low"@,
            BatteryInfo::Critical => "Critical"@,
            BatteryInfo::Full => "Full"@,
            BatteryInfo::Charging => "Charging"@,
            BatteryInfo::Unknown => "Unknown"@,
        }
    }

    /// The label shown for this state.
    pub fn label(self) -> (s: &'static str)
        ensures
            s@ == self.text(),
    {
        match self {
            Self::Normal => "Ok",
            Self::Low => "Low",
            Self::Critical => "Critical",
            Self::Full => "Full",
            Self::Charging => "Charging",
            Self::Unknown => "Unknown",
        }
    }
}

/// Link state as the tray shows it.
#[derive(Debug, Clone, Copy, PartialEq, Eq, Structural)]
pub enum LinkInfo {
    Active,
    Searching,
    Standby,
    Disconnected,
}

impl LinkInfo {
    /// The link state in the lower nibble of `b`: 1 is active; 3, 5, 6 and 9
    /// are searching; 4 is standby; anything else is disconnected.
    pub open spec fn of_byte(b: u8) -> LinkInfo {
        let v = b % 16;
        if v == 1 { LinkInfo::Active }
        else if v == 3 || v == 5 || v == 6 || v == 9 { LinkInfo::Searching }
        else if v == 4 { LinkInfo::Standby }
        else { LinkInfo::Disconnected }
    }

    /// Decode the link state from the lower nibble of `b`.
    pub fn from_byte(b: u8) -> (l: Self)
        ensures
            l == Self::of_byte(b),
    {
        proof {
            lemma_byte_masks(b);
        }
        match b & 0x0F {
            1 => Self::Active,
            3 | 5 | 6 | 9 => Self::Searching,
            4 => Self::Standby,
            _ => Self::Disconnected,
        }
    }

    /// The label shown for this state.
    pub open spec fn text(self) -> Seq<char> {
        match self {
            LinkInfo::Active => "Active"@,
            LinkInfo::Searching => "Searching"@,
            LinkInfo::Standby => "Standby"@,
            LinkInfo::Disconnected => "Disconnected"@,
        }
    }

    /// The label shown for this state.
    pub fn label(self) -> (s: &'static str)
        ensures
            s@ == self.text(),
    {
        match self {
            Self::Active => "Active",
            Self::Searching => "Searching",
            Self::Standby => "Standby",
            Self::Disconnected => "Disconnected",
        }
    }
}

/// Snapshot of headset state.
#[derive(Debug, Clone)]
pub struct HeadsetState {
    pub battery: u8,
    pub battery_state: BatteryInfo,
    pub mic_boom_up: bool,
    pub link: LinkInfo,
    pub fw_tx: String,
    pub fw_rx: String,
}

/// The firmware version text `major.minor`.
pub open spec fn version_text(major: u8, minor: u8) -> Seq<char> {
    dec_text(major as nat) + "."@ + dec_text(minor as nat)
}

fn version_string(major: u8, minor: u8) -> (s: String)
    ensures
        s@ == version_text(major, minor),
{
    let mut s = String::new();
    push_decimal(&mut s, major as u64);
    push_str(&mut s, ".");
    push_decimal(&mut s, minor as u64);
    assert(s@ =~= version_text(major, minor));
    s
}

/// Read a state input report (`[0x64, payload...]`) and, optionally, a
/// firmware version input report (`[0x66, payload...]`) into a snapshot.
///
/// `None` when the state payload has fewer than 4 bytes. The battery level is
/// the low 7 bits of payload byte 1 (not clamped); the firmware versions are
/// `?` unless the firmware report has at least 4 payload bytes.
pub fn parse_state(state_data: &[u8], fw_data: Option<&[u8]>) -> (s: Option<HeadsetState>)
    requires
        state_data@.len() >= 1,
    ensures
        s is None <==> state_data@.len() < 5,
        s matches Some(st) ==> {
            let p = state_data@.drop_first();
            &&& st.battery == p[1] % 128
            &&& st.mic_boom_up == (p[1] < 128)
            &&& st.link == LinkInfo::of_byte(p[2])
            &&& st.battery_state == BatteryInfo::of_byte(p[3])
            &&& match fw_data {
                Some(f) if f@.len() >= 5 => {
                    &&& st.fw_tx@ == version_text(f@[1], f@[2])
                    &&& st.fw_rx@ == version_text(f@[3], f@[4])
                },
                _ => st.fw_tx@ == "?"@ && st.fw_rx@ == "?"@,
            }
        },
{
    if state_data.len() - 1 < 4 {
        return None;
    }
    let b1 = state_data[2];
    proof {
        lemma_byte_masks(b1);
    }
    let battery = b1 & 0x7F;
    let mic_boom_up = (b1 & 0x80) == 0;
    let link = LinkInfo::from_byte(state_data[3]);
    let battery_state = BatteryInfo::from_byte(state_data[4]);
    let (fw_tx, fw_rx) = match fw_data {
        Some(f) if f.len() >= 5 => (version_string(f[1], f[2]), version_string(f[3], f[4])),
        _ => (String::from_str("?"), String::from_str("?")),
    };
    Some(HeadsetState { battery, battery_state, mic_boom_up, link, fw_tx, fw_rx })
}

/// The tray's battery and link readings follow the protocol's codes: the
/// battery reads Ok, Low, Critical, Full or Charging exactly when byte 3
/// carries the Normal, Low, Shutdown, ChargeComplete or Charging state, and
/// Unknown otherwise; the link reads Active for the Active state, Searching
/// for Search, ReSync, InitialScan and ActiveSearch, Standby for Standby,
/// and Disconnected otherwise.
pub proof fn lemma_status_follows_protocol(b: u8)
    ensures
        (BatteryInfo::of_byte(b) == BatteryInfo::Normal) == (BatteryState::of_bits(b) == Some(BatteryState::Normal)),
        (BatteryInfo::of_byte(b) == BatteryInfo::Low) == (BatteryState::of_bits(b) == Some(BatteryState::Low)),
        (BatteryInfo::of_byte(b) == BatteryInfo::Critical) == (BatteryState::of_bits(b) == Some(BatteryState::Shutdown)),
        (BatteryInfo::of_byte(b) == BatteryInfo::Full) == (BatteryState::of_bits(b) == Some(BatteryState::ChargeComplete)),
        (BatteryInfo::of_byte(b) == BatteryInfo::Charging) == (BatteryState::of_bits(b) == Some(BatteryState::Charging)),
        (LinkInfo::of_byte(b) == LinkInfo::Active) == (LinkState::of_nibble(b) == Some(LinkState::Active)),
        (LinkInfo::of_byte(b) == LinkInfo::Searching) == (LinkState::of_nibble(b) == Some(LinkState::Search)
            || LinkState::of_nibble(b) == Some(LinkState::ReSync) || LinkState::of_nibble(b) == Some(LinkState::InitialScan)
            || LinkState::of_nibble(b) == Some(LinkState::ActiveSearch)),
        (LinkInfo::of_byte(b) == LinkInfo::Standby) == (LinkState::of_nibble(b) == Some(LinkState::Standby)),
        BatteryInfo::Normal.text() == "Ok"@ && BatteryInfo::Low.text() == "Low"@
            && BatteryInfo::Critical.text() == "Critical"@ && BatteryInfo::Full.text() == "Full"@
            && BatteryInfo::Charging.text() == "Charging"@ && BatteryInfo::Unknown.text() == "Unknown"@,
        LinkInfo::Active.text() == "Active"@ && LinkInfo::Searching.text() == "Searching"@
            && LinkInfo::Standby.text() == "Standby"@ && LinkInfo::Disconnected.text() == "Disconnected"@,
{
}

/// The SetValue report that turns sidetone on or off. The device's
/// SidetoneState is a mute flag, so it is the inverse of `enabled`.
pub fn sidetone_report(enabled: bool) -> (r: Report)
    ensures
        r.carries(0xCA, set_value_payload(ValueId::SidetoneState.value(), bool_byte(!enabled))),
{
    let v: u8 = if enabled { 0 } else { 1 };
    encode_set_value(ValueId::SidetoneState, v)
}

/// The SetValue report that selects EQ preset `index`.
pub fn eq_preset_report(index: u8) -> (r: Report)
    ensures
        r.carries(0xCA, set_value_payload(ValueId::EqIndex.value(), index)),
{
    encode_set_value(ValueId::EqIndex, index)
}

/// The reports that set the LED color on both logo zones, left then right.
pub fn led_color_reports(r: u8, g: u8, b: u8) -> (reports: Vec<Report>)
    ensures
        reports@.len() == 2,
        reports@[0].carries(0xCB, led_payload(color_pairs(LedZone::LeftLogo.mapping(), r, g, b), 8, 19)),
        reports@[1].carries(0xCB, led_payload(color_pairs(LedZone::RightLogo.mapping(), r, g, b), 8, 19)),
{
    let mut reports: Vec<Report> = Vec::new();
    reports.push(encode_set_color(LedZone::LeftLogo, r, g, b));
    reports.push(encode_set_color(LedZone::RightLogo, r, g, b));
    reports
}

/// Minimum time between reconnection attempts, in milliseconds.
pub const RECONNECT_COOLDOWN_MS: u64 = 5000;

/// Whether to try to reopen the headset: it is not open, and the last
/// attempt was at least the cooldown ago.
pub fn reconnect_due(connected: bool, since_last_attempt_ms: u64) -> (b: bool)
    ensures
        b == (!connected && since_last_attempt_ms >= RECONNECT_COOLDOWN_MS),
{
    !connected && since_last_attempt_ms >= RECONNECT_COOLDOWN_MS
}

} // verus!
