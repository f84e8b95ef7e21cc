//! Direct LED control (Report ID 0xCB, ReportTypes 6 and 7).
//!
//! Controls headset LEDs directly via TI LP5562 and CMA (Conexant) register
//! writes. Two report variants exist:
//!
//! ## DirectLedControlReportLayout (ReportType 6) — 19 bytes payload
//!
//! ```text
//! Byte  0:      count of register/value pairs (0–8)
//! Bytes 1–16:   up to 8 pairs of (TI_register, value)
//! Bytes 17–18:  padding (0x00)
//! ```
//!
//! ## CmaDirectLedControlReportLayout (ReportType 7) — 7 bytes payload
//!
//! ```text
//! Byte  0:    count of register/value pairs (0–3)
//! Bytes 1–6:  up to 3 pairs of (CMA_register, value)
//! ```
//!
//! ## LED Zone Mapping
//!
//! | Zone ID | Name       | Colors | TI PWM registers     | TI brightness registers |
//! |---------|------------|--------|----------------------|------------------------|
//! | 0x213   | LeftLogo   | RGB    | 0x1C, 0x16, 0x17    | 0x0C, 0x06, 0x07       |
//! | 0x214   | RightLogo  | RGB    | 0x1D, 0x18, 0x19    | 0x0D, 0x08, 0x09       |
//! | 0x215   | Status     | RG     | 0x1B, 0x1A           | 0x0B, 0x0A             |
//! | 0x216   | MicMute    | R      | 0x1E                 | 0x0E                   |

pub mod cma;

use vstd::prelude::*;
use crate::legacy::sidetone::clamp_percent;
use crate::report::{build, Report};

verus! {

/// HID report ID for direct LED control.
pub const LED_REPORT_ID: u8 = 0xCB;

/// Maximum register/value pairs in a DirectLedControl report (ReportType 6).
pub const TI_MAX_PAIRS: usize = 8;

/// Maximum register/value pairs in a CmaDirectLedControl report (ReportType 7).
pub const CMA_MAX_PAIRS: usize = 3;

/// MicMute PWM register (handled separately since it's a single channel).
pub const MIC_MUTE_PWM: u8 = 0x1E;

/// MicMute brightness register.
pub const MIC_MUTE_BRIGHTNESS: u8 = 0x0E;

/// TI LP5562 engine enable register.
pub const TI_ENABLE_REG: u8 = 0x01;

/// Value to start TI engines (run mode for all three engines).
pub const TI_ENGINE_START: u8 = 0x2A;

/// Value to stop TI engines (disable all engines).
pub const TI_ENGINE_STOP: u8 = 0x00;

/// LED zones on the headset.
///
/// Zone IDs match the ones the vendor software uses (0x213–0x216).
#[derive(Debug, Clone, Copy, PartialEq, Eq, Hash, Structural)]
pub enum LedZone {
    /// Left earcup logo — full RGB (0x213).
    LeftLogo,
    /// Right earcup logo — full RGB (0x214).
    RightLogo,
    /// Status indicator — red and green only (0x215).
    Status,
    /// Microphone mute indicator — red only (0x216).
    MicMute,
}

/// TI LP5562 register addresses for a single LED zone.
///
/// Each color component has a PWM register (for color value) and a brightness
/// register. Zones with fewer color channels have `None` for missing components.
#[derive(Debug, Clone, Copy, PartialEq, Eq, Structural)]
pub struct ZoneMapping {
    /// PWM register for red channel.
    pub pwm_red: Option<u8>,
    /// PWM register for green channel.
    pub pwm_green: Option<u8>,
    /// PWM register for blue channel.
    pub pwm_blue: Option<u8>,
    /// Brightness register for red channel.
    pub bright_red: Option<u8>,
    /// Brightness register for green channel.
    pub bright_green: Option<u8>,
    /// Brightness register for blue channel.
    pub bright_blue: Option<u8>,
}

/// The register of a present channel, as a one- or zero-element sequence.
pub open spec fn opt_seq(o: Option<u8>) -> Seq<u8> {
    match o {
        Some(x) => seq![x],
        None => Seq::empty(),
    }
}

/// Both registers of a channel, if both are present.
pub open spec fn opt_pair(a: Option<u8>, b: Option<u8>) -> Seq<(u8, u8)> {
    match (a, b) {
        (Some(x), Some(y)) => seq![(x, y)],
        _ => Seq::empty(),
    }
}

/// The register of a present channel paired with `v`.
pub open spec fn opt_with(o: Option<u8>, v: u8) -> Seq<(u8, u8)> {
    match o {
        Some(reg) => seq![(reg, v)],
        None => Seq::empty(),
    }
}

impl LedZone {
    /// The 16-bit zone ID.
    pub open spec fn zone_id(self) -> u16 {
        match self {
            LedZone::LeftLogo => 0x213,
            LedZone::RightLogo => 0x214,
            LedZone::Status => 0x215,
            LedZone::MicMute => 0x216,
        }
    }

    /// The zone whose ID is `id`, if any.
    pub open spec fn of_id(id: u16) -> Option<LedZone> {
        if id == 0x213 { Some(LedZone::LeftLogo) }
        else if id == 0x214 { Some(LedZone::RightLogo) }
        else if id == 0x215 { Some(LedZone::Status) }
        else if id == 0x216 { Some(LedZone::MicMute) }
        else { None }
    }

    /// The TI registers of this zone.
    pub open spec fn mapping(self) -> ZoneMapping {
        match self {
            LedZone::LeftLogo => ZoneMapping {
                pwm_red: Some(0x1C), pwm_green: Some(0x16), pwm_blue: Some(0x17),
                bright_red: Some(0x0C), bright_green: Some(0x06), bright_blue: Some(0x07),
            },
            LedZone::RightLogo => ZoneMapping {
                pwm_red: Some(0x1D), pwm_green: Some(0x18), pwm_blue: Some(0x19),
                bright_red: Some(0x0D), bright_green: Some(0x08), bright_blue: Some(0x09),
            },
            LedZone::Status => ZoneMapping {
                pwm_red: Some(0x1B), pwm_green: Some(0x1A), pwm_blue: None,
                bright_red: Some(0x0B), bright_green: Some(0x0A), bright_blue: None,
            },
            LedZone::MicMute => ZoneMapping {
                pwm_red: Some(0x1E), pwm_green: None, pwm_blue: None,
                bright_red: Some(0x0E), bright_green: None, bright_blue: None,
            },
        }
    }

    /// Decode from a raw 16-bit zone ID.
    pub fn from_id(id: u16) -> (z: Option<Self>)
        ensures
            z == Self::of_id(id),
    {
        match id {
            0x213 => Some(Self::LeftLogo),
            0x214 => Some(Self::RightLogo),
            0x215 => Some(Self::Status),
            0x216 => Some(Self::MicMute),
            _ => None,
        }
    }

    /// The 16-bit zone ID.
    pub fn id(self) -> (id: u16)
        ensures
            id == self.zone_id(),
    {
        match self {
            Self::LeftLogo => 0x213,
            Self::RightLogo => 0x214,
            Self::Status => 0x215,
            Self::MicMute => 0x216,
        }
    }

    /// Return the TI register mapping for this zone.
    pub fn ti_mapping(&self) -> (m: ZoneMapping)
        ensures
            m == self.mapping(),
    {
        match self {
            Self::LeftLogo => ZoneMapping {
                pwm_red: Some(0x1C), pwm_green: Some(0x16), pwm_blue: Some(0x17),
                bright_red: Some(0x0C), bright_green: Some(0x06), bright_blue: Some(0x07),
            },
            Self::RightLogo => ZoneMapping {
                pwm_red: Some(0x1D), pwm_green: Some(0x18), pwm_blue: Some(0x19),
                bright_red: Some(0x0D), bright_green: Some(0x08), bright_blue: Some(0x09),
            },
            Self::Status => ZoneMapping {
                pwm_red: Some(0x1B), pwm_green: Some(0x1A), pwm_blue: None,
                bright_red: Some(0x0B), bright_green: Some(0x0A), bright_blue: None,
            },
            Self::MicMute => ZoneMapping {
                pwm_red: Some(0x1E), pwm_green: None, pwm_blue: None,
                bright_red: Some(0x0E), bright_green: None, bright_blue: None,
            },
        }
    }
}

/// Zones and their IDs determine each other.
pub proof fn lemma_zone_id_roundtrip(z: LedZone, id: u16)
    ensures
        LedZone::of_id(z.zone_id()) == Some(z),
        LedZone::of_id(id) matches Some(x) ==> x.zone_id() == id,
{
}

fn push_opt(v: &mut Vec<u8>, o: Option<u8>)
    ensures
        final(v)@ == old(v)@ + opt_seq(o),
{
    match o {
        Some(x) => {
            v.push(x);
            assert(final(v)@ =~= old(v)@ + opt_seq(o));
        },
        None => {
            assert(v@ =~= old(v)@ + opt_seq(o));
        },
    }
}

fn push_pair(v: &mut Vec<(u8, u8)>, a: Option<u8>, b: Option<u8>)
    ensures
        final(v)@ == old(v)@ + opt_pair(a, b),
{
    match (a, b) {
        (Some(x), Some(y)) => {
            v.push((x, y));
            assert(final(v)@ =~= old(v)@ + opt_pair(a, b));
        },
        _ => {
            assert(v@ =~= old(v)@ + opt_pair(a, b));
        },
    }
}

fn push_with(v: &mut Vec<(u8, u8)>, o: Option<u8>, value: u8)
    ensures
        final(v)@ == old(v)@ + opt_with(o, value),
{
    match o {
        Some(reg) => {
            v.push((reg, value));
            assert(final(v)@ =~= old(v)@ + opt_with(o, value));
        },
        None => {
            assert(v@ =~= old(v)@ + opt_with(o, value));
        },
    }
}

impl ZoneMapping {
    /// The (PWM, brightness) register pairs of the channels present in this
    /// zone, red, green, blue in that order.
    pub open spec fn channel_seq(self) -> Seq<(u8, u8)> {
        opt_pair(self.pwm_red, self.bright_red) + opt_pair(self.pwm_green, self.bright_green)
            + opt_pair(self.pwm_blue, self.bright_blue)
    }

    /// The PWM registers present in this zone, red, green, blue in that order.
    pub open spec fn pwm_seq(self) -> Seq<u8> {
        opt_seq(self.pwm_red) + opt_seq(self.pwm_green) + opt_seq(self.pwm_blue)
    }

    /// The brightness registers present in this zone, red, green, blue in that order.
    pub open spec fn brightness_seq(self) -> Seq<u8> {
        opt_seq(self.bright_red) + opt_seq(self.bright_green) + opt_seq(self.bright_blue)
    }

    /// The (pwm_register, brightness_register) pairs for all color channels
    /// present in this zone.
    pub fn channels(&self) -> (c: Vec<(u8, u8)>)
        ensures
            c@ == self.channel_seq(),
    {
        let mut c: Vec<(u8, u8)> = Vec::new();
        push_pair(&mut c, self.pwm_red, self.bright_red);
        push_pair(&mut c, self.pwm_green, self.bright_green);
        push_pair(&mut c, self.pwm_blue, self.bright_blue);
        assert(c@ =~= self.channel_seq());
        c
    }

    /// All PWM registers present in this zone.
    pub fn pwm_registers(&self) -> (r: Vec<u8>)
        ensures
            r@ == self.pwm_seq(),
    {
        let mut r: Vec<u8> = Vec::new();
        push_opt(&mut r, self.pwm_red);
        push_opt(&mut r, self.pwm_green);
        push_opt(&mut r, self.pwm_blue);
        assert(r@ =~= self.pwm_seq());
        r
    }

    /// All brightness registers present in this zone.
    pub fn brightness_registers(&self) -> (r: Vec<u8>)
        ensures
            r@ == self.brightness_seq(),
    {
        let mut r: Vec<u8> = Vec::new();
        push_opt(&mut r, self.bright_red);
        push_opt(&mut r, self.bright_green);
        push_opt(&mut r, self.bright_blue);
        assert(r@ =~= self.brightness_seq());
        r
    }
}

/// Every zone's channels pair its PWM registers with its brightness
/// registers one to one: a color has both registers or neither.
pub proof fn lemma_zone_channels_consistent(z: LedZone)
    ensures
        ({
            let m = z.mapping();
            &&& m.channel_seq().len() == m.pwm_seq().len()
            &&& m.channel_seq().len() == m.brightness_seq().len()
            &&& forall|i: int| 0 <= i < m.channel_seq().len() ==>
                #[trigger] m.channel_seq()[i] == (m.pwm_seq()[i], m.brightness_seq()[i])
        }),
{
    let m = z.mapping();
    assert(m.channel_seq().len() == m.pwm_seq().len());
    assert(m.channel_seq().len() == m.brightness_seq().len());
    assert forall|i: int| 0 <= i < m.channel_seq().len() implies
        #[trigger] m.channel_seq()[i] == (m.pwm_seq()[i], m.brightness_seq()[i]) by {
        match z {
            LedZone::LeftLogo => {
                assert(m.channel_seq() =~= seq![(0x1Cu8, 0x0Cu8), (0x16u8, 0x06u8), (0x17u8, 0x07u8)]);
                assert(m.pwm_seq() =~= seq![0x1Cu8, 0x16u8, 0x17u8]);
                assert(m.brightness_seq() =~= seq![0x0Cu8, 0x06u8, 0x07u8]);
            },
            LedZone::RightLogo => {
                assert(m.channel_seq() =~= seq![(0x1Du8, 0x0Du8), (0x18u8, 0x08u8), (0x19u8, 0x09u8)]);
                assert(m.pwm_seq() =~= seq![0x1Du8, 0x18u8, 0x19u8]);
                assert(m.brightness_seq() =~= seq![0x0Du8, 0x08u8, 0x09u8]);
            },
            LedZone::Status => {
                assert(m.channel_seq() =~= seq![(0x1Bu8, 0x0Bu8), (0x1Au8, 0x0Au8)]);
                assert(m.pwm_seq() =~= seq![0x1Bu8, 0x1Au8]);
                assert(m.brightness_seq() =~= seq![0x0Bu8, 0x0Au8]);
            },
            LedZone::MicMute => {
                assert(m.channel_seq() =~= seq![(0x1Eu8, 0x0Eu8)]);
                assert(m.pwm_seq() =~= seq![0x1Eu8]);
                assert(m.brightness_seq() =~= seq![0x0Eu8]);
            },
        }
    }
}

/// The payload of an LED control report: the pair count (at most
/// `max_pairs`), then the register/value pairs, then zeros up to `size` bytes.
pub open spec fn led_payload(pairs: Seq<(u8, u8)>, max_pairs: nat, size: nat) -> Seq<u8> {
    let count = if pairs.len() < max_pairs { pairs.len() } else { max_pairs };
    Seq::new(size, |i: int|
        if i == 0 {
            count as u8
        } else if i <= 2 * count {
            if i % 2 == 1 { pairs[(i - 1) / 2].0 } else { pairs[(i - 2) / 2].1 }
        } else {
            0u8
        })
}

/// Build a DirectLedControl report (ReportType 6) from register/value pairs.
///
/// Silently truncates to [`TI_MAX_PAIRS`] if more pairs are provided.
fn encode_ti_report(pairs: &[(u8, u8)]) -> (r: Report)
    ensures
        r.carries(LED_REPORT_ID, led_payload(pairs@, 8, 19)),
{
    let count: usize = if pairs.len() < TI_MAX_PAIRS { pairs.len() } else { TI_MAX_PAIRS };
    let mut payload = [0u8; 19];
    payload[0] = count as u8;
    let mut i: usize = 0;
    while i < count
        invariant
            count <= 8,
            count <= pairs@.len(),
            i <= count,
            payload@.len() == 19,
            payload@[0] == count as u8,
            forall|j: int| 1 <= j <= 2 * i ==> payload@[j] == led_payload(pairs@, 8, 19)[j],
            forall|j: int| 2 * i < j < 19 ==> payload@[j] == 0u8,
        decreases count - i,
    {
        let (reg, val) = pairs[i];
        payload[1 + i * 2] = reg;
        payload[2 + i * 2] = val;
        i = i + 1;
    }
    assert(payload@ =~= led_payload(pairs@, 8, 19));
    build(LED_REPORT_ID, &payload)
}

/// Build a CmaDirectLedControl report (ReportType 7) from register/value pairs.
///
/// Silently truncates to [`CMA_MAX_PAIRS`] if more pairs are provided.
fn encode_cma_report(pairs: &[(u8, u8)]) -> (r: Report)
    ensures
        r.carries(LED_REPORT_ID, led_payload(pairs@, 3, 7)),
{
    let count: usize = if pairs.len() < CMA_MAX_PAIRS { pairs.len() } else { CMA_MAX_PAIRS };
    let mut payload = [0u8; 7];
    payload[0] = count as u8;
    let mut i: usize = 0;
    while i < count
        invariant
            count <= 3,
            count <= pairs@.len(),
            i <= count,
            payload@.len() == 7,
            payload@[0] == count as u8,
            forall|j: int| 1 <= j <= 2 * i ==> payload@[j] == led_payload(pairs@, 3, 7)[j],
            forall|j: int| 2 * i < j < 7 ==> payload@[j] == 0u8,
        decreases count - i,
    {
        let (reg, val) = pairs[i];
        payload[1 + i * 2] = reg;
        payload[2 + i * 2] = val;
        i = i + 1;
    }
    assert(payload@ =~= led_payload(pairs@, 3, 7));
    build(LED_REPORT_ID, &payload)
}

/// Encode a "start TI engines" report: `0x2A` to the TI LP5562 enable
/// register (0x01), running all three LED engine sequencers.
pub fn encode_start_ti_engines() -> (r: Report)
    ensures
        r.carries(0xCB, led_payload(seq![(0x01u8, 0x2Au8)], 8, 19)),
{
    let pairs = [(TI_ENABLE_REG, TI_ENGINE_START)];
    assert(pairs@ =~= seq![(0x01u8, 0x2Au8)]);
    encode_ti_report(&pairs)
}

/// Encode a "stop TI engines" report: `0x00` to the TI LP5562 enable
/// register (0x01), disabling all LED engine sequencers.
pub fn encode_stop_ti_engines() -> (r: Report)
    ensures
        r.carries(0xCB, led_payload(seq![(0x01u8, 0x00u8)], 8, 19)),
{
    let pairs = [(TI_ENABLE_REG, TI_ENGINE_STOP)];
    assert(pairs@ =~= seq![(0x01u8, 0x00u8)]);
    encode_ti_report(&pairs)
}

/// The PWM byte for a brightness percentage: `level / 100 * 255` truncated,
/// levels above 100 counting as 100.
pub open spec fn brightness_pwm(level: u8) -> u8 {
    (clamp_percent(level) as nat * 255 / 100) as u8
}

/// Encode a set-brightness report for a specific zone: the PWM byte of
/// `level` written to every brightness register of the zone.
pub fn encode_set_brightness(zone: LedZone, level: u8) -> (r: Report)
    ensures
        r.carries(0xCB, led_payload(
            zone.mapping().brightness_seq().map_values(|reg: u8| (reg, brightness_pwm(level))), 8, 19)),
{
    let clamped: u8 = if level > 100 { 100 } else { level };
    let pwm = ((clamped as u16) * 255 / 100) as u8;
    let mapping = zone.ti_mapping();
    let regs = mapping.brightness_registers();
    let mut pairs: Vec<(u8, u8)> = Vec::new();
    let mut i: usize = 0;
    while i < regs.len()
        invariant
            i <= regs@.len(),
            pairs@ =~= regs@.take(i as int).map_values(|reg: u8| (reg, pwm)),
        decreases regs@.len() - i,
    {
        pairs.push((regs[i], pwm));
        i = i + 1;
        assert(pairs@ =~= regs@.take(i as int).map_values(|reg: u8| (reg, pwm)));
    }
    assert(regs@.take(regs@.len() as int) =~= regs@);
    assert(pwm == brightness_pwm(level));
    encode_ti_report(pairs.as_slice())
}

/// The register/value pairs of a color: each present PWM register with its
/// component, red, green, blue in that order.
pub open spec fn color_pairs(m: ZoneMapping, r: u8, g: u8, b: u8) -> Seq<(u8, u8)> {
    opt_with(m.pwm_red, r) + opt_with(m.pwm_green, g) + opt_with(m.pwm_blue, b)
}

/// Encode a set-color report for a specific zone via TI registers.
///
/// Writes RGB values to the zone's PWM registers. For zones with fewer
/// channels (Status = RG, MicMute = R only), extra components are ignored.
pub fn encode_set_color(zone: LedZone, r: u8, g: u8, b: u8) -> (rep: Report)
    ensures
        rep.carries(0xCB, led_payload(color_pairs(zone.mapping(), r, g, b), 8, 19)),
{
    let mapping = zone.ti_mapping();
    let mut pairs: Vec<(u8, u8)> = Vec::new();
    push_with(&mut pairs, mapping.pwm_red, r);
    push_with(&mut pairs, mapping.pwm_green, g);
    push_with(&mut pairs, mapping.pwm_blue, b);
    assert(pairs@ =~= color_pairs(zone.mapping(), r, g, b));
    encode_ti_report(pairs.as_slice())
}

/// Encode a set-color report for the right logo zone via CMA registers
/// (ReportType 7), writing RGB through the Conexant audio codec path.
pub fn encode_set_color_cma(r: u8, g: u8, b: u8) -> (rep: Report)
    ensures
        rep.carries(0xCB, led_payload(seq![(cma::RED, r), (cma::GREEN, g), (cma::BLUE, b)], 3, 7)),
{
    let pairs = [(cma::RED, r), (cma::GREEN, g), (cma::BLUE, b)];
    assert(pairs@ =~= seq![(cma::RED, r), (cma::GREEN, g), (cma::BLUE, b)]);
    encode_cma_report(&pairs)
}

/// All PWM registers of the main zones (LeftLogo, RightLogo, Status).
pub open spec fn all_pwm_registers() -> Seq<u8> {
    seq![0x1Cu8, 0x16u8, 0x17u8, 0x1Du8, 0x18u8, 0x19u8, 0x1Bu8, 0x1Au8]
}

/// All brightness registers of the main zones (LeftLogo, RightLogo, Status).
pub open spec fn all_brightness_registers() -> Seq<u8> {
    seq![0x0Cu8, 0x06u8, 0x07u8, 0x0Du8, 0x08u8, 0x09u8, 0x0Bu8, 0x0Au8]
}

/// The zones and their TI registers, as the device lays them out: zone IDs
/// 0x213–0x216 for LeftLogo, RightLogo, Status and MicMute; each channel's
/// (PWM, brightness) registers, red then green then blue: LeftLogo (0x1C,
/// 0x0C), (0x16, 0x06), (0x17, 0x07); RightLogo (0x1D, 0x0D), (0x18, 0x08),
/// (0x19, 0x09); Status red (0x1B, 0x0B) and green (0x1A, 0x0A); MicMute
/// red (0x1E, 0x0E).
pub proof fn lemma_zone_registers()
    ensures
        LedZone::LeftLogo.zone_id() == 0x213,
        LedZone::RightLogo.zone_id() == 0x214,
        LedZone::Status.zone_id() == 0x215,
        LedZone::MicMute.zone_id() == 0x216,
        LedZone::LeftLogo.mapping().pwm_red == Some(0x1Cu8) && LedZone::LeftLogo.mapping().bright_red == Some(0x0Cu8),
        LedZone::LeftLogo.mapping().pwm_green == Some(0x16u8) && LedZone::LeftLogo.mapping().bright_green == Some(0x06u8),
        LedZone::LeftLogo.mapping().pwm_blue == Some(0x17u8) && LedZone::LeftLogo.mapping().bright_blue == Some(0x07u8),
        LedZone::RightLogo.mapping().pwm_red == Some(0x1Du8) && LedZone::RightLogo.mapping().bright_red == Some(0x0Du8),
        LedZone::RightLogo.mapping().pwm_green == Some(0x18u8) && LedZone::RightLogo.mapping().bright_green == Some(0x08u8),
        LedZone::RightLogo.mapping().pwm_blue == Some(0x19u8) && LedZone::RightLogo.mapping().bright_blue == Some(0x09u8),
        LedZone::Status.mapping().pwm_red == Some(0x1Bu8) && LedZone::Status.mapping().bright_red == Some(0x0Bu8),
        LedZone::Status.mapping().pwm_green == Some(0x1Au8) && LedZone::Status.mapping().bright_green == Some(0x0Au8),
        LedZone::Status.mapping().pwm_blue is None && LedZone::Status.mapping().bright_blue is None,
        LedZone::MicMute.mapping().pwm_red == Some(0x1Eu8) && LedZone::MicMute.mapping().bright_red == Some(0x0Eu8),
        LedZone::MicMute.mapping().pwm_green is None && LedZone::MicMute.mapping().bright_green is None,
        LedZone::MicMute.mapping().pwm_blue is None && LedZone::MicMute.mapping().bright_blue is None,
{
}

/// The main-zone registers are exactly those of the zone mappings: the PWM
/// (brightness) registers of LeftLogo, RightLogo and Status, in that order;
/// together with MicMute's they are the PWM registers 0x16–0x1E and the
/// brightness registers 0x06–0x0E, each of every zone once. So the reports
/// that write these lists (LED off, logarithmic PWM) reach every channel of
/// every zone.
pub proof fn lemma_main_zone_registers()
    ensures
        all_pwm_registers() == LedZone::LeftLogo.mapping().pwm_seq() + LedZone::RightLogo.mapping().pwm_seq()
            + LedZone::Status.mapping().pwm_seq(),
        all_brightness_registers() == LedZone::LeftLogo.mapping().brightness_seq()
            + LedZone::RightLogo.mapping().brightness_seq() + LedZone::Status.mapping().brightness_seq(),
        LedZone::MicMute.mapping().pwm_seq() == seq![0x1Eu8],
        LedZone::MicMute.mapping().brightness_seq() == seq![0x0Eu8],
        forall|r: u8| 0x16 <= r <= 0x1E <==> (all_pwm_registers().contains(r) || r == 0x1E),
        forall|r: u8| 0x06 <= r <= 0x0E <==> (all_brightness_registers().contains(r) || r == 0x0E),
        all_pwm_registers().no_duplicates(),
        all_brightness_registers().no_duplicates(),
{
    let p = all_pwm_registers();
    let b = all_brightness_registers();
    assert(p =~= LedZone::LeftLogo.mapping().pwm_seq() + LedZone::RightLogo.mapping().pwm_seq()
        + LedZone::Status.mapping().pwm_seq());
    assert(b =~= LedZone::LeftLogo.mapping().brightness_seq() + LedZone::RightLogo.mapping().brightness_seq()
        + LedZone::Status.mapping().brightness_seq());
    assert(LedZone::MicMute.mapping().pwm_seq() =~= seq![0x1Eu8]);
    assert(LedZone::MicMute.mapping().brightness_seq() =~= seq![0x0Eu8]);
    assert forall|r: u8| 0x16 <= r <= 0x1E <==> (p.contains(r) || r == 0x1E) by {
        if 0x16 <= r <= 0x1E && r != 0x1E {
            let i: int = if r == 0x1C { 0 } else if r == 0x16 { 1 } else if r == 0x17 { 2 } else if r == 0x1D { 3 }
                else if r == 0x18 { 4 } else if r == 0x19 { 5 } else if r == 0x1B { 6 } else { 7 };
            assert(p[i] == r);
        }
    }
    assert forall|r: u8| 0x06 <= r <= 0x0E <==> (b.contains(r) || r == 0x0E) by {
        if 0x06 <= r <= 0x0E && r != 0x0E {
            let i: int = if r == 0x0C { 0 } else if r == 0x06 { 1 } else if r == 0x07 { 2 } else if r == 0x0D { 3 }
                else if r == 0x08 { 4 } else if r == 0x09 { 5 } else if r == 0x0B { 6 } else { 7 };
            assert(b[i] == r);
        }
    }
}

/// Every register of `regs` paired with `v`.
pub open spec fn all_with(regs: Seq<u8>, v: u8) -> Seq<(u8, u8)> {
    regs.map_values(|reg: u8| (reg, v))
}

/// The eight main-zone registers (PWM when `pwm` is true, brightness
/// otherwise) paired with `v`, as an array.
fn main_zone_pairs(pwm: bool, v: u8) -> (pairs: [(u8, u8); 8])
    ensures
        pairs@ == all_with(if pwm { all_pwm_registers() } else { all_brightness_registers() }, v),
{
    let pairs = if pwm {
        [(0x1C, v), (0x16, v), (0x17, v), (0x1D, v), (0x18, v), (0x19, v), (0x1B, v), (0x1A, v)]
    } else {
        [(0x0C, v), (0x06, v), (0x07, v), (0x0D, v), (0x08, v), (0x09, v), (0x0B, v), (0x0A, v)]
    };
    assert(pairs@ =~= all_with(if pwm { all_pwm_registers() } else { all_brightness_registers() }, v));
    pairs
}

/// Encode a "set logarithmic PWM" report pair.
///
/// When `enabled` is true, writes `0x20` (bit 5 set) to the PWM registers of
/// all zones; when false, writes `0x00`. The first report covers the eight
/// main-zone registers, the second the MicMute register.
pub fn encode_set_logarithmic_pwm(enabled: bool) -> (reports: Vec<Report>)
    ensures
        reports@.len() == 2,
        reports@[0].carries(0xCB, led_payload(all_with(all_pwm_registers(), if enabled { 0x20u8 } else { 0u8 }), 8, 19)),
        reports@[1].carries(0xCB, led_payload(seq![(0x1Eu8, if enabled { 0x20u8 } else { 0u8 })], 8, 19)),
{
    let value: u8 = if enabled { 0x20 } else { 0x00 };
    let mut reports: Vec<Report> = Vec::new();
    let pairs = main_zone_pairs(true, value);
    reports.push(encode_ti_report(&pairs));
    let mic = [(MIC_MUTE_PWM, value)];
    assert(mic@ =~= seq![(0x1Eu8, value)]);
    reports.push(encode_ti_report(&mic));
    reports
}

/// Encode "clear PWM" reports — zero all PWM and brightness registers across
/// every zone: main-zone PWM, MicMute PWM, main-zone brightness, MicMute
/// brightness, in that order.
pub fn encode_clear_pwm() -> (reports: Vec<Report>)
    ensures
        reports@.len() == 4,
        reports@[0].carries(0xCB, led_payload(all_with(all_pwm_registers(), 0), 8, 19)),
        reports@[1].carries(0xCB, led_payload(seq![(0x1Eu8, 0u8)], 8, 19)),
        reports@[2].carries(0xCB, led_payload(all_with(all_brightness_registers(), 0), 8, 19)),
        reports@[3].carries(0xCB, led_payload(seq![(0x0Eu8, 0u8)], 8, 19)),
        // Every value written is zero.
        forall|k: int, i: int| 0 <= k < 4 && 0 <= i < reports@[k].buffer()[0] ==>
            #[trigger] reports@[k].buffer()[2 + 2 * i] == 0u8,
{
    let mut reports: Vec<Report> = Vec::new();
    let pairs = main_zone_pairs(true, 0);
    reports.push(encode_ti_report(&pairs));
    let mic = [(MIC_MUTE_PWM, 0u8)];
    assert(mic@ =~= seq![(0x1Eu8, 0u8)]);
    reports.push(encode_ti_report(&mic));
    let bright = main_zone_pairs(false, 0);
    reports.push(encode_ti_report(&bright));
    let mic_bright = [(MIC_MUTE_BRIGHTNESS, 0u8)];
    assert(mic_bright@ =~= seq![(0x0Eu8, 0u8)]);
    reports.push(encode_ti_report(&mic_bright));
    assert forall|k: int, i: int| 0 <= k < 4 && 0 <= i < reports@[k].buffer()[0] implies
        #[trigger] reports@[k].buffer()[2 + 2 * i] == 0u8 by {
        let r = reports@[k];
        assert(r.buffer()[2 + 2 * i] == r.buffer()[2 + 2 * i]);
    }
    reports
}

} // verus!
