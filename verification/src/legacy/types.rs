//! Core types for the Legacy Headset Protocol.
//!
//! ## HID Usage Pages
//!
//! | Page   | Use |
//! |--------|-----|
//! | 0x000C | Consumer Control (volume, media keys) |
//! | 0xFFC5 | Corsair vendor output/input reports |
//! | 0xFF00 | Corsair vendor feature reports |
//! | 0x000A | Ordinal (LED, SetValue, extended I/O) |
//!
//! ## Report Payload Sizes (from HID descriptor)
//!
//! | Report ID | Type    | Payload | Usage Page |
//! |-----------|---------|---------|------------|
//! | 0x64      | Input   | 9 B     | 0xFFC5     |
//! | 0x65      | Input   | 2 B     | 0xFFC5     |
//! | 0x66      | Input   | 4 B     | 0xFFC5     |
//! | 0xC8      | Output  | 2 B     | 0xFFC5     |
//! | 0xC9      | Output  | 1 B     | 0xFFC5     |
//! | 0xCA      | Output  | 4 B     | 0x000A     |
//! | 0xCB      | Output  | 19 B    | 0x000A     |
//! | 0xCC      | Output  | 1 B     | 0xFFC5     |
//! | 0xFF      | Feature | 63 B    | 0x000A     |

use vstd::prelude::*;
use crate::bits::lemma_byte_masks;

verus! {

/// HID usage page for vendor output/input reports.
pub const USAGE_PAGE_OUTPUT: u16 = 0xFFC5;

/// HID usage page for vendor feature reports.
pub const USAGE_PAGE_FEATURE: u16 = 0xFF00;

/// HID usage page for ordinal reports (LED, SetValue, extended I/O).
pub const USAGE_PAGE_ORDINAL: u16 = 0x000A;

/// Inter-report delay within a transaction (nanoseconds).
pub const TRANSACTION_DELAY_NS: u64 = 35_000_000;

/// Timeout for a single report send (milliseconds).
pub const REPORT_TIMEOUT_MS: u64 = 200;

/// Timeout for feature report operations (milliseconds).
pub const FEATURE_REPORT_TIMEOUT_MS: u64 = 5000;

/// HID report IDs used by the Legacy Headset Protocol.
///
/// Input reports (device -> host): 0x64–0x66.
/// Output reports (host -> device): 0xC8–0xCC, 0xFF.
#[derive(Debug, Clone, Copy, PartialEq, Eq, Structural)]
pub enum ReportId {
    /// State report: battery, mic boom, buttons, link state (0x64).
    State,
    /// Device operating mode notification (0x65).
    DeviceModeIn,
    /// Firmware version, transmitter + receiver (0x66).
    FirmwareVersion,
    /// Set device operating mode (0xC8).
    DeviceModeOut,
    /// Request data from device (0xC9).
    RequestData,
    /// Set a device value by [`ValueId`] (0xCA).
    SetValue,
    /// Direct LED color control (0xCB).
    DirectLedControl,
    /// Set power state: shutdown/reset (0xCC).
    SetPowerState,
    /// Multipurpose report ID for sidetone, auto-shutdown, pairing, link state (0xFF).
    Extended,
}

impl ReportId {
    /// The wire value of this report ID.
    pub open spec fn byte(self) -> u8 {
        match self {
            ReportId::State => 0x64,
            ReportId::DeviceModeIn => 0x65,
            ReportId::FirmwareVersion => 0x66,
            ReportId::DeviceModeOut => 0xC8,
            ReportId::RequestData => 0xC9,
            ReportId::SetValue => 0xCA,
            ReportId::DirectLedControl => 0xCB,
            ReportId::SetPowerState => 0xCC,
            ReportId::Extended => 0xFF,
        }
    }

    /// The report ID whose wire value is `b`, if any.
    pub open spec fn of_byte(b: u8) -> Option<ReportId> {
        if b == 0x64 { Some(ReportId::State) }
        else if b == 0x65 { Some(ReportId::DeviceModeIn) }
        else if b == 0x66 { Some(ReportId::FirmwareVersion) }
        else if b == 0xC8 { Some(ReportId::DeviceModeOut) }
        else if b == 0xC9 { Some(ReportId::RequestData) }
        else if b == 0xCA { Some(ReportId::SetValue) }
        else if b == 0xCB { Some(ReportId::DirectLedControl) }
        else if b == 0xCC { Some(ReportId::SetPowerState) }
        else if b == 0xFF { Some(ReportId::Extended) }
        else { None }
    }

    /// The wire value of this report ID.
    pub fn to_byte(self) -> (b: u8)
        ensures
            b == self.byte(),
    {
        match self {
            ReportId::State => 0x64,
            ReportId::DeviceModeIn => 0x65,
            ReportId::FirmwareVersion => 0x66,
            ReportId::DeviceModeOut => 0xC8,
            ReportId::RequestData => 0xC9,
            ReportId::SetValue => 0xCA,
            ReportId::DirectLedControl => 0xCB,
            ReportId::SetPowerState => 0xCC,
            ReportId::Extended => 0xFF,
        }
    }

    /// Convert from a raw byte, returning `None` for unrecognized IDs.
    pub fn from_byte(b: u8) -> (r: Option<Self>)
        ensures
            r == Self::of_byte(b),
    {
        match b {
            0x64 => Some(Self::State),
            0x65 => Some(Self::DeviceModeIn),
            0x66 => Some(Self::FirmwareVersion),
            0xC8 => Some(Self::DeviceModeOut),
            0xC9 => Some(Self::RequestData),
            0xCA => Some(Self::SetValue),
            0xCB => Some(Self::DirectLedControl),
            0xCC => Some(Self::SetPowerState),
            0xFF => Some(Self::Extended),
            _ => None,
        }
    }
}

/// Report IDs and their wire values determine each other: decoding the
/// wire value of an ID gives the ID back, and a byte that decodes is the
/// wire value of what it decodes to.
pub proof fn lemma_report_id_roundtrip(r: ReportId, b: u8)
    ensures
        ReportId::of_byte(r.byte()) == Some(r),
        ReportId::of_byte(b) matches Some(x) ==> x.byte() == b,
{
}

/// Internal report type discriminator matching the protocol's `ReportType` enum.
///
/// Multiple types can share the same [`ReportId`] (e.g., types 9, 10, 12, 13
/// all use report ID 0xFF and are differentiated by sub-command header bytes).
/// The protocol value of each type is its position in this list.
#[derive(Debug, Clone, Copy, PartialEq, Eq, Structural)]
pub enum ReportType {
    /// Input: state (battery, mic boom, buttons, link state). Report ID 0x64.
    State,
    /// Input: device mode notification. Report ID 0x65.
    DeviceModeIn,
    /// Input: firmware version. Report ID 0x66.
    FirmwareVersion,
    /// Output: set device mode. Report ID 0xC8.
    DeviceModeOut,
    /// Output: request data. Report ID 0xC9.
    RequestData,
    /// Output: set value. Report ID 0xCA.
    SetValue,
    /// Output: direct LED control. Report ID 0xCB.
    DirectLedControl,
    /// Output: CMA-variant LED control. Report ID 0xCB.
    CmaDirectLedControl,
    /// Output: set power state. Report ID 0xCC.
    SetPowerState,
    /// Output: set auto-shutdown timer. Report ID 0xFF.
    SetAutoShutdown,
    /// Output: set sidetone level. Report ID 0xFF.
    SetSidetoneLevel,
    /// Output: apply sidetone level. Report ID 0xFF.
    ApplySidetoneLevel,
    /// Output: start wireless pairing. Report ID 0xFF.
    StartPairing,
    /// Output: link state notification. Report ID 0xFF.
    LinkStateNotify,
}

/// Which HID report type to use when sending a report.
#[derive(Debug, Clone, Copy, PartialEq, Eq, Structural)]
pub enum HidReportType {
    /// Sent with `kIOHIDReportTypeOutput` on usage page 0xFFC5 (value 0).
    Output,
    /// Sent with `kIOHIDReportTypeFeature` on usage page 0xFF00 (value 1).
    Feature,
}

/// Battery charging/discharging state.
///
/// Encoded as the lower 3 bits of the state report's byte 3; the value of
/// each state is its position in this list.
#[derive(Debug, Clone, Copy, PartialEq, Eq, Structural)]
pub enum BatteryState {
    /// Unknown or not reported.
    Invalid,
    /// Normal battery level.
    Normal,
    /// Low battery.
    Low,
    /// Critical — shutting down.
    Shutdown,
    /// Fully charged.
    ChargeComplete,
    /// Currently charging.
    Charging,
    /// Battery error.
    Error,
}

impl BatteryState {
    /// The 3-bit value of this state.
    pub open spec fn value(self) -> u8 {
        match self {
            BatteryState::Invalid => 0,
            BatteryState::Normal => 1,
            BatteryState::Low => 2,
            BatteryState::Shutdown => 3,
            BatteryState::ChargeComplete => 4,
            BatteryState::Charging => 5,
            BatteryState::Error => 6,
        }
    }

    /// The state encoded in the lower 3 bits of `val` (7 encodes none).
    pub open spec fn of_bits(val: u8) -> Option<BatteryState> {
        let v = val % 8;
        if v == 0 { Some(BatteryState::Invalid) }
        else if v == 1 { Some(BatteryState::Normal) }
        else if v == 2 { Some(BatteryState::Low) }
        else if v == 3 { Some(BatteryState::Shutdown) }
        else if v == 4 { Some(BatteryState::ChargeComplete) }
        else if v == 5 { Some(BatteryState::Charging) }
        else if v == 6 { Some(BatteryState::Error) }
        else { None }
    }

    /// Decode from the raw 3-bit value (higher bits are ignored).
    pub fn from_bits(val: u8) -> (s: Option<Self>)
        ensures
            s == Self::of_bits(val),
    {
        proof {
            lemma_byte_masks(val);
        }
        match val & 0x07 {
            0 => Some(Self::Invalid),
            1 => Some(Self::Normal),
            2 => Some(Self::Low),
            3 => Some(Self::Shutdown),
            4 => Some(Self::ChargeComplete),
            5 => Some(Self::Charging),
            6 => Some(Self::Error),
            _ => None,
        }
    }

    /// The 3-bit value of this state.
    pub fn to_bits(self) -> (v: u8)
        ensures
            v == self.value(),
    {
        match self {
            Self::Invalid => 0,
            Self::Normal => 1,
            Self::Low => 2,
            Self::Shutdown => 3,
            Self::ChargeComplete => 4,
            Self::Charging => 5,
            Self::Error => 6,
        }
    }

    /// Whether the device is currently charging (Charging or ChargeComplete).
    pub fn is_charging(self) -> (b: bool)
        ensures
            b == (self == BatteryState::Charging || self == BatteryState::ChargeComplete),
    {
        matches!(self, Self::Charging | Self::ChargeComplete)
    }
}

/// The battery-state codes on the wire: the low 3 bits 0 through 6 are
/// Invalid, Normal, Low, Shutdown (critical), ChargeComplete, Charging and
/// Error, in that order; 7 names no state. Encoding gives the same codes.
pub proof fn lemma_battery_state_codes(v: u8)
    ensures
        v % 8 == 0 ==> BatteryState::of_bits(v) == Some(BatteryState::Invalid),
        v % 8 == 1 ==> BatteryState::of_bits(v) == Some(BatteryState::Normal),
        v % 8 == 2 ==> BatteryState::of_bits(v) == Some(BatteryState::Low),
        v % 8 == 3 ==> BatteryState::of_bits(v) == Some(BatteryState::Shutdown),
        v % 8 == 4 ==> BatteryState::of_bits(v) == Some(BatteryState::ChargeComplete),
        v % 8 == 5 ==> BatteryState::of_bits(v) == Some(BatteryState::Charging),
        v % 8 == 6 ==> BatteryState::of_bits(v) == Some(BatteryState::Error),
        v % 8 == 7 ==> BatteryState::of_bits(v) is None,
        BatteryState::Invalid.value() == 0,
        BatteryState::Normal.value() == 1,
        BatteryState::Low.value() == 2,
        BatteryState::Shutdown.value() == 3,
        BatteryState::ChargeComplete.value() == 4,
        BatteryState::Charging.value() == 5,
        BatteryState::Error.value() == 6,
{
}

/// Battery states and their 3-bit values determine each other.
pub proof fn lemma_battery_state_roundtrip(s: BatteryState, v: u8)
    ensures
        BatteryState::of_bits(s.value()) == Some(s),
        BatteryState::of_bits(v) matches Some(x) ==> x.value() == v % 8,
{
}

/// Wireless link state between headset and dongle.
///
/// Encoded as the lower nibble of state report byte 2 (value 10 is unused).
#[derive(Debug, Clone, Copy, PartialEq, Eq, Structural)]
pub enum LinkState {
    Invalid,
    Active,
    Pair,
    Search,
    Standby,
    ReSync,
    InitialScan,
    TestMode,
    PairCancel,
    ActiveSearch,
    ActivePair,
    SearchViaSynchro,
    PairViaSynchro,
}

impl LinkState {
    /// The 4-bit value of this state.
    pub open spec fn value(self) -> u8 {
        match self {
            LinkState::Invalid => 0,
            LinkState::Active => 1,
            LinkState::Pair => 2,
            LinkState::Search => 3,
            LinkState::Standby => 4,
            LinkState::ReSync => 5,
            LinkState::InitialScan => 6,
            LinkState::TestMode => 7,
            LinkState::PairCancel => 8,
            LinkState::ActiveSearch => 9,
            LinkState::ActivePair => 11,
            LinkState::SearchViaSynchro => 12,
            LinkState::PairViaSynchro => 13,
        }
    }

    /// The state encoded in the lower nibble of `val` (10, 14, 15 encode none).
    pub open spec fn of_nibble(val: u8) -> Option<LinkState> {
        let v = val % 16;
        if v == 0 { Some(LinkState::Invalid) }
        else if v == 1 { Some(LinkState::Active) }
        else if v == 2 { Some(LinkState::Pair) }
        else if v == 3 { Some(LinkState::Search) }
        else if v == 4 { Some(LinkState::Standby) }
        else if v == 5 { Some(LinkState::ReSync) }
        else if v == 6 { Some(LinkState::InitialScan) }
        else if v == 7 { Some(LinkState::TestMode) }
        else if v == 8 { Some(LinkState::PairCancel) }
        else if v == 9 { Some(LinkState::ActiveSearch) }
        else if v == 11 { Some(LinkState::ActivePair) }
        else if v == 12 { Some(LinkState::SearchViaSynchro) }
        else if v == 13 { Some(LinkState::PairViaSynchro) }
        else { None }
    }

    /// Decode from the lower nibble of `val` (higher bits are ignored).
    pub fn from_nibble(val: u8) -> (s: Option<Self>)
        ensures
            s == Self::of_nibble(val),
    {
        proof {
            lemma_byte_masks(val);
        }
        match val & 0x0F {
            0 => Some(Self::Invalid),
            1 => Some(Self::Active),
            2 => Some(Self::Pair),
            3 => Some(Self::Search),
            4 => Some(Self::Standby),
            5 => Some(Self::ReSync),
            6 => Some(Self::InitialScan),
            7 => Some(Self::TestMode),
            8 => Some(Self::PairCancel),
            9 => Some(Self::ActiveSearch),
            11 => Some(Self::ActivePair),
            12 => Some(Self::SearchViaSynchro),
            13 => Some(Self::PairViaSynchro),
            _ => None,
        }
    }

    /// The 4-bit value of this state.
    pub fn to_nibble(self) -> (v: u8)
        ensures
            v == self.value(),
    {
        match self {
            Self::Invalid => 0,
            Self::Active => 1,
            Self::Pair => 2,
            Self::Search => 3,
            Self::Standby => 4,
            Self::ReSync => 5,
            Self::InitialScan => 6,
            Self::TestMode => 7,
            Self::PairCancel => 8,
            Self::ActiveSearch => 9,
            Self::ActivePair => 11,
            Self::SearchViaSynchro => 12,
            Self::PairViaSynchro => 13,
        }
    }

    /// Whether the link is actively connected.
    pub fn is_connected(self) -> (b: bool)
        ensures
            b == (self == LinkState::Active || self == LinkState::ActiveSearch
                || self == LinkState::ActivePair),
    {
        matches!(self, Self::Active | Self::ActiveSearch | Self::ActivePair)
    }
}

/// Link states and their 4-bit values determine each other.
pub proof fn lemma_link_state_roundtrip(s: LinkState, v: u8)
    ensures
        LinkState::of_nibble(s.value()) == Some(s),
        LinkState::of_nibble(v) matches Some(x) ==> x.value() == v % 16,
{
}

/// Device operating mode (the value of each mode is its position: 0, 1).
#[derive(Debug, Clone, Copy, PartialEq, Eq, Structural)]
pub enum OperatingMode {
    /// Hardware mode (normal operation).
    Hardware,
    /// Software mode (software-controlled).
    Software,
}

impl OperatingMode {
    /// The wire value of this mode.
    pub open spec fn value(self) -> u8 {
        match self {
            OperatingMode::Hardware => 0,
            OperatingMode::Software => 1,
        }
    }

    /// The mode whose wire value is `b`, if any.
    pub open spec fn of_byte(b: u8) -> Option<OperatingMode> {
        if b == 0 { Some(OperatingMode::Hardware) }
        else if b == 1 { Some(OperatingMode::Software) }
        else { None }
    }

    /// Decode a mode byte.
    pub fn from_byte(b: u8) -> (m: Option<Self>)
        ensures
            m == Self::of_byte(b),
    {
        match b {
            0 => Some(Self::Hardware),
            1 => Some(Self::Software),
            _ => None,
        }
    }

    /// The wire value of this mode.
    pub fn to_byte(self) -> (b: u8)
        ensures
            b == self.value(),
    {
        match self {
            Self::Hardware => 0,
            Self::Software => 1,
        }
    }
}

/// Operating modes and their wire values determine each other.
pub proof fn lemma_operating_mode_roundtrip(m: OperatingMode, b: u8)
    ensures
        OperatingMode::of_byte(m.value()) == Some(m),
        OperatingMode::of_byte(b) matches Some(x) ==> x.value() == b,
{
}

/// Power down state for SetPowerState report (0xCC); values 0, 1, 2 in order.
#[derive(Debug, Clone, Copy, PartialEq, Eq, Structural)]
pub enum PowerDownState {
    Invalid,
    Reset,
    Shutdown,
}

impl PowerDownState {
    /// The wire value of this state.
    pub open spec fn value(self) -> u8 {
        match self {
            PowerDownState::Invalid => 0,
            PowerDownState::Reset => 1,
            PowerDownState::Shutdown => 2,
        }
    }

    /// The wire value of this state.
    pub fn to_byte(self) -> (b: u8)
        ensures
            b == self.value(),
    {
        match self {
            Self::Invalid => 0,
            Self::Reset => 1,
            Self::Shutdown => 2,
        }
    }
}

/// Parameter selector for the SetValue report (report ID 0xCA).
///
/// Byte 0 of the SetValue payload selects which parameter to set; the value
/// of each selector is its position in this list.
#[derive(Debug, Clone, Copy, PartialEq, Eq, Structural)]
pub enum ValueId {
    Invalid,
    /// Active EQ preset index.
    EqIndex,
    /// Surround sound on/off state.
    SurroundState,
    /// Microphone mute state.
    MicState,
    /// Audio indications (beeps/tones) state.
    AudioIndicationsState,
    /// Sidetone mute state.
    SidetoneState,
    /// Surround indicator LED state.
    SurroundIndicatorState,
}

impl ValueId {
    /// The wire value of this selector.
    pub open spec fn value(self) -> u8 {
        match self {
            ValueId::Invalid => 0,
            ValueId::EqIndex => 1,
            ValueId::SurroundState => 2,
            ValueId::MicState => 3,
            ValueId::AudioIndicationsState => 4,
            ValueId::SidetoneState => 5,
            ValueId::SurroundIndicatorState => 6,
        }
    }

    /// The selector whose wire value is `b`, if any.
    pub open spec fn of_byte(b: u8) -> Option<ValueId> {
        if b == 0 { Some(ValueId::Invalid) }
        else if b == 1 { Some(ValueId::EqIndex) }
        else if b == 2 { Some(ValueId::SurroundState) }
        else if b == 3 { Some(ValueId::MicState) }
        else if b == 4 { Some(ValueId::AudioIndicationsState) }
        else if b == 5 { Some(ValueId::SidetoneState) }
        else if b == 6 { Some(ValueId::SurroundIndicatorState) }
        else { None }
    }

    /// Decode a selector byte.
    pub fn from_byte(b: u8) -> (v: Option<Self>)
        ensures
            v == Self::of_byte(b),
    {
        match b {
            0 => Some(Self::Invalid),
            1 => Some(Self::EqIndex),
            2 => Some(Self::SurroundState),
            3 => Some(Self::MicState),
            4 => Some(Self::AudioIndicationsState),
            5 => Some(Self::SidetoneState),
            6 => Some(Self::SurroundIndicatorState),
            _ => None,
        }
    }

    /// The wire value of this selector.
    pub fn to_byte(self) -> (b: u8)
        ensures
            b == self.value(),
    {
        match self {
            Self::Invalid => 0,
            Self::EqIndex => 1,
            Self::SurroundState => 2,
            Self::MicState => 3,
            Self::AudioIndicationsState => 4,
            Self::SidetoneState => 5,
            Self::SurroundIndicatorState => 6,
        }
    }
}

/// Value selectors and their wire values determine each other.
pub proof fn lemma_value_id_roundtrip(v: ValueId, b: u8)
    ensures
        ValueId::of_byte(v.value()) == Some(v),
        ValueId::of_byte(b) matches Some(x) ==> x.value() == b,
{
}

/// The protocol's codes, as the device defines them. Report IDs: State 0x64,
/// DeviceModeIn 0x65, FirmwareVersion 0x66, DeviceModeOut 0xC8, RequestData
/// 0xC9, SetValue 0xCA, DirectLedControl 0xCB, SetPowerState 0xCC, Extended
/// 0xFF. Link states 0–9 and 11–13 in declaration order (10 is unused).
/// Operating modes Hardware 0, Software 1. Power-down states Invalid 0,
/// Reset 1, Shutdown 2. SetValue selectors Invalid 0, EqIndex 1,
/// SurroundState 2, MicState 3, AudioIndicationsState 4, SidetoneState 5,
/// SurroundIndicatorState 6. Each decoder reads exactly these codes.
pub proof fn lemma_protocol_codes(b: u8)
    ensures
        ReportId::State.byte() == 0x64,
        ReportId::DeviceModeIn.byte() == 0x65,
        ReportId::FirmwareVersion.byte() == 0x66,
        ReportId::DeviceModeOut.byte() == 0xC8,
        ReportId::RequestData.byte() == 0xC9,
        ReportId::SetValue.byte() == 0xCA,
        ReportId::DirectLedControl.byte() == 0xCB,
        ReportId::SetPowerState.byte() == 0xCC,
        ReportId::Extended.byte() == 0xFF,
        ReportId::of_byte(b) is Some <==> (b == 0x64 || b == 0x65 || b == 0x66 || (0xC8 <= b <= 0xCC) || b == 0xFF),
        LinkState::Invalid.value() == 0,
        LinkState::Active.value() == 1,
        LinkState::Pair.value() == 2,
        LinkState::Search.value() == 3,
        LinkState::Standby.value() == 4,
        LinkState::ReSync.value() == 5,
        LinkState::InitialScan.value() == 6,
        LinkState::TestMode.value() == 7,
        LinkState::PairCancel.value() == 8,
        LinkState::ActiveSearch.value() == 9,
        LinkState::ActivePair.value() == 11,
        LinkState::SearchViaSynchro.value() == 12,
        LinkState::PairViaSynchro.value() == 13,
        LinkState::of_nibble(b) is None <==> (b % 16 == 10 || b % 16 == 14 || b % 16 == 15),
        OperatingMode::Hardware.value() == 0,
        OperatingMode::Software.value() == 1,
        OperatingMode::of_byte(b) is Some <==> b < 2,
        PowerDownState::Invalid.value() == 0,
        PowerDownState::Reset.value() == 1,
        PowerDownState::Shutdown.value() == 2,
        ValueId::Invalid.value() == 0,
        ValueId::EqIndex.value() == 1,
        ValueId::SurroundState.value() == 2,
        ValueId::MicState.value() == 3,
        ValueId::AudioIndicationsState.value() == 4,
        ValueId::SidetoneState.value() == 5,
        ValueId::SurroundIndicatorState.value() == 6,
        ValueId::of_byte(b) is Some <==> b < 7,
{
}

} // verus!
