//! What the menu shows and when the application polls, re-applies settings
//! and puts the headset to sleep.

use vstd::prelude::*;
use crate::legacy::lighting::{color_pairs, led_payload, LedZone};
use crate::report::Report;
use crate::text::{dec_text, push_decimal, push_decimal_padded, push_str, zero_pad};
use crate::tray::headset::{eq_preset_report, led_color_reports, sidetone_report, HeadsetState, LinkInfo};
use crate::tray::settings::{eq_index_of, led_rgb_of, Settings};

verus! {

/// Poll interval while the headset link is active (seconds).
pub const POLL_ACTIVE_SECS: u64 = 15;

/// Poll interval while the link is down or the dongle is absent (seconds).
pub const POLL_IDLE_SECS: u64 = 120;

/// The battery line of the menu.
pub open spec fn battery_line(s: Option<HeadsetState>) -> Seq<char> {
    match s {
        Some(st) => "Battery: "@ + dec_text(st.battery as nat) + "% ("@ + st.battery_state.text() + ")"@,
        None => "Battery: --"@,
    }
}

/// The battery line of the menu, e.g. `Battery: 75% (Ok)`.
pub fn fmt_battery(s: &Option<HeadsetState>) -> (t: String)
    ensures
        t@ == battery_line(*s),
{
    match s {
        Some(st) => {
            let mut t = String::from_str("Battery: ");
            push_decimal(&mut t, st.battery as u64);
            push_str(&mut t, "% (");
            push_str(&mut t, st.battery_state.label());
            push_str(&mut t, ")");
            t
        },
        None => String::from_str("Battery: --"),
    }
}

/// The microphone line of the menu.
pub open spec fn mic_line(s: Option<HeadsetState>) -> Seq<char> {
    match s {
        Some(st) => if st.mic_boom_up { "Mic: Off (boom up)"@ } else { "Mic: On"@ },
        None => "Mic: --"@,
    }
}

/// The microphone line of the menu.
pub fn fmt_mic(s: &Option<HeadsetState>) -> (t: String)
    ensures
        t@ == mic_line(*s),
{
    match s {
        Some(st) => if st.mic_boom_up {
            String::from_str("Mic: Off (boom up)")
        } else {
            String::from_str("Mic: On")
        },
        None => String::from_str("Mic: --"),
    }
}

/// The link line of the menu.
pub open spec fn link_line(s: Option<HeadsetState>) -> Seq<char> {
    match s {
        Some(st) => "Link: "@ + st.link.text(),
        None => "Link: --"@,
    }
}

/// The link line of the menu, e.g. `Link: Active`.
pub fn fmt_link(s: &Option<HeadsetState>) -> (t: String)
    ensures
        t@ == link_line(*s),
{
    match s {
        Some(st) => {
            let mut t = String::from_str("Link: ");
            push_str(&mut t, st.link.label());
            t
        },
        None => String::from_str("Link: --"),
    }
}

/// The firmware line of the menu.
pub open spec fn fw_line(s: Option<HeadsetState>) -> Seq<char> {
    match s {
        Some(st) => "FW "@ + st.fw_tx@ + "/"@ + st.fw_rx@,
        None => "FW --"@,
    }
}

/// The firmware line of the menu, e.g. `FW 3.10/1.5`.
pub fn fmt_fw(s: &Option<HeadsetState>) -> (t: String)
    ensures
        t@ == fw_line(*s),
{
    match s {
        Some(st) => {
            let mut t = String::from_str("FW ");
            push_str(&mut t, st.fw_tx.as_str());
            push_str(&mut t, "/");
            push_str(&mut t, st.fw_rx.as_str());
            t
        },
        None => String::from_str("FW --"),
    }
}

/// The menu bar title: the battery percentage while the link is active,
/// the link state otherwise, nothing when the dongle is absent.
pub open spec fn title_line(s: Option<HeadsetState>) -> Seq<char> {
    match s {
        Some(st) => if st.link == LinkInfo::Active {
            dec_text(st.battery as nat) + "%"@
        } else {
            st.link.text()
        },
        None => Seq::empty(),
    }
}

/// The menu bar title, e.g. `75%` or `Searching`.
pub fn tray_title(s: &Option<HeadsetState>) -> (t: String)
    ensures
        t@ == title_line(*s),
{
    match s {
        Some(st) => if st.link == LinkInfo::Active {
            let mut t = String::new();
            push_decimal(&mut t, st.battery as u64);
            push_str(&mut t, "%");
            assert(t@ =~= title_line(*s));
            t
        } else {
            String::from_str(st.link.label())
        },
        None => String::new(),
    }
}

/// How long to wait until the next poll (seconds).
pub fn poll_interval_secs(connected: bool) -> (s: u64)
    ensures
        s == if connected { POLL_ACTIVE_SECS } else { POLL_IDLE_SECS },
{
    if connected { POLL_ACTIVE_SECS } else { POLL_IDLE_SECS }
}

/// Nanoseconds in a minute.
pub const NANOS_PER_MINUTE: u128 = 60_000_000_000;

/// The sleep countdown line: empty when auto-sleep is off, `Sleep: imminent`
/// once the timeout has passed, otherwise the whole minutes and seconds left.
pub open spec fn countdown_line(timeout_mins: u64, elapsed_ns: u128) -> Seq<char> {
    if timeout_mins == 0 {
        Seq::empty()
    } else if elapsed_ns >= timeout_mins * NANOS_PER_MINUTE {
        "Sleep: imminent"@
    } else {
        let remaining_secs = ((timeout_mins * NANOS_PER_MINUTE - elapsed_ns) / 1_000_000_000) as nat;
        "Sleep in "@ + dec_text(remaining_secs / 60) + ":"@ + zero_pad(dec_text(remaining_secs % 60), 2)
    }
}

/// The sleep countdown line, e.g. `Sleep in 14:05`.
///
/// The timeout in seconds must fit in 64 bits.
pub fn sleep_countdown_text(timeout_mins: u64, elapsed_ns: u128) -> (t: String)
    requires
        timeout_mins * 60 <= u64::MAX,
    ensures
        t@ == countdown_line(timeout_mins, elapsed_ns),
{
    if timeout_mins == 0 {
        return String::new();
    }
    let timeout_ns: u128 = (timeout_mins as u128) * NANOS_PER_MINUTE;
    if elapsed_ns >= timeout_ns {
        return String::from_str("Sleep: imminent");
    }
    let remaining_secs = ((timeout_ns - elapsed_ns) / 1_000_000_000) as u64;
    let mins = remaining_secs / 60;
    let secs = remaining_secs % 60;
    let mut t = String::from_str("Sleep in ");
    push_decimal(&mut t, mins);
    push_str(&mut t, ":");
    push_decimal_padded(&mut t, secs, 2);
    t
}

/// Whether to put the headset to sleep: auto-sleep is on, the link was
/// active, and at least the timeout has passed since the last activity.
pub open spec fn auto_sleep_due(timeout_mins: u64, was_connected: bool, elapsed_ns: u128) -> bool {
    timeout_mins > 0 && was_connected && elapsed_ns >= timeout_mins * NANOS_PER_MINUTE
}

/// Whether to put the headset to sleep now.
///
/// When auto-sleep is on and the link was active, the timeout in seconds
/// must fit in 64 bits.
pub fn should_auto_sleep(timeout_mins: u64, was_connected: bool, elapsed_ns: u128) -> (b: bool)
    requires
        timeout_mins > 0 && was_connected ==> timeout_mins * 60 <= u64::MAX,
    ensures
        b == auto_sleep_due(timeout_mins, was_connected, elapsed_ns),
        b == (timeout_mins > 0 && was_connected && elapsed_ns >= timeout_mins * 60 * 1_000_000_000),
{
    timeout_mins > 0 && was_connected && elapsed_ns >= (timeout_mins as u128) * NANOS_PER_MINUTE
}

/// Auto-sleep comes exactly when the chosen timeout has passed: with
/// auto-sleep on and the link active, it is due once `timeout_mins` minutes
/// (`timeout_mins · 60 · 10^9` ns) have elapsed and not before; never when
/// auto-sleep is off or the link was down. Waiting longer never cancels it,
/// and a longer timeout is never due sooner.
pub proof fn lemma_auto_sleep_timing(timeout_mins: u64, was_connected: bool, elapsed_ns: u128, later_ns: u128, longer_mins: u64)
    ensures
        timeout_mins > 0 && was_connected && elapsed_ns < timeout_mins * 60 * 1_000_000_000
            ==> !auto_sleep_due(timeout_mins, was_connected, elapsed_ns),
        timeout_mins > 0 && was_connected && elapsed_ns >= timeout_mins * 60 * 1_000_000_000
            ==> auto_sleep_due(timeout_mins, was_connected, elapsed_ns),
        timeout_mins == 0 || !was_connected ==> !auto_sleep_due(timeout_mins, was_connected, elapsed_ns),
        auto_sleep_due(timeout_mins, was_connected, elapsed_ns) && elapsed_ns <= later_ns
            ==> auto_sleep_due(timeout_mins, was_connected, later_ns),
        auto_sleep_due(longer_mins, was_connected, elapsed_ns) && 0 < timeout_mins <= longer_mins
            ==> auto_sleep_due(timeout_mins, was_connected, elapsed_ns),
{
    assert(timeout_mins <= longer_mins ==> timeout_mins * 60_000_000_000 <= longer_mins * 60_000_000_000)
        by (nonlinear_arith);
}

/// The reports that apply saved settings to the headset: sidetone, EQ
/// preset, then the LED color on both logo zones when a known color is saved.
pub fn settings_reports(settings: &Settings) -> (reports: Vec<Report>)
    ensures
        reports@.len() == if settings.led_color matches Some(n) && led_rgb_of(n@) is Some { 4int } else { 2int },
        reports@[0].carries(0xCA, seq![5u8, if settings.sidetone { 0u8 } else { 1u8 }, 0u8, 0u8]),
        reports@[1].carries(0xCA, seq![1u8, eq_index_of(settings.eq_preset@), 0u8, 0u8]),
        settings.led_color matches Some(n) ==> (led_rgb_of(n@) matches Some(rgb) ==> {
            &&& reports@[2].carries(0xCB, led_payload(color_pairs(LedZone::LeftLogo.mapping(), rgb.0, rgb.1, rgb.2), 8, 19))
            &&& reports@[3].carries(0xCB, led_payload(color_pairs(LedZone::RightLogo.mapping(), rgb.0, rgb.1, rgb.2), 8, 19))
        }),
{
    let mut reports: Vec<Report> = Vec::new();
    reports.push(sidetone_report(settings.sidetone));
    reports.push(eq_preset_report(settings.eq_index()));
    match settings.led_rgb() {
        Some(rgb) => {
            let led = led_color_reports(rgb[0], rgb[1], rgb[2]);
            reports.push(led[0]);
            reports.push(led[1]);
        },
        None => {},
    }
    reports
}

/// What the tray keeps between polls.
#[derive(Debug, Clone, Copy, PartialEq, Eq, Structural)]
pub struct TrayState {
    /// The tray icon is shown (the dongle was found).
    pub tray_visible: bool,
    /// The headset link was active at the last poll.
    pub was_connected: bool,
    /// Seconds until the next poll.
    pub poll_interval_secs: u64,
}

/// What the application does after a poll.
#[derive(Debug, Clone, Copy, PartialEq, Eq, Structural)]
pub struct PollActions {
    /// Show the tray icon.
    pub show_tray: bool,
    /// Hide the tray icon.
    pub hide_tray: bool,
    /// Send the saved settings to the headset again.
    pub reapply_settings: bool,
    /// Switch the icon to connected (`Some(true)`) or disconnected (`Some(false)`).
    pub set_icon_connected: Option<bool>,
    /// The headset is active: refresh the menu texts and the battery alerts,
    /// and count this as activity for the sleep timer (when `activity` is set).
    pub refresh_status: bool,
    /// The link is active, which resets the sleep timer.
    pub activity: bool,
}

impl TrayState {
    /// The state at start-up: the icon is shown when the dongle was found,
    /// connected when the link was active.
    pub fn new(dongle_found: bool, link_active: bool) -> (t: Self)
        ensures
            t.tray_visible == dongle_found,
            t.was_connected == link_active,
            t.poll_interval_secs == POLL_ACTIVE_SECS,
    {
        TrayState { tray_visible: dongle_found, was_connected: link_active, poll_interval_secs: POLL_ACTIVE_SECS }
    }

    /// Update after a poll that found the headset in `state` (`None`: no dongle).
    ///
    /// Found: show the icon and re-apply the settings if it was hidden,
    /// switch the icon when the link went up or down, refresh the status, and
    /// poll again soon while the link is active. Not found: hide the icon,
    /// count the link as down, and poll rarely.
    pub fn on_poll(&mut self, state: &Option<HeadsetState>) -> (a: PollActions)
        ensures
            match *state {
                Some(st) => {
                    let c = st.link == LinkInfo::Active;
                    &&& a.show_tray == !old(self).tray_visible
                    &&& !a.hide_tray
                    &&& a.reapply_settings == !old(self).tray_visible
                    &&& a.set_icon_connected == if c != old(self).was_connected { Some(c) } else { None }
                    &&& a.refresh_status
                    &&& a.activity == c
                    &&& *final(self) == TrayState {
                        tray_visible: true,
                        was_connected: c,
                        poll_interval_secs: if c { POLL_ACTIVE_SECS } else { POLL_IDLE_SECS },
                    }
                },
                None => {
                    &&& !a.show_tray
                    &&& a.hide_tray == old(self).tray_visible
                    &&& !a.reapply_settings
                    &&& a.set_icon_connected is None
                    &&& !a.refresh_status
                    &&& !a.activity
                    &&& *final(self) == TrayState {
                        tray_visible: false,
                        was_connected: if old(self).tray_visible { false } else { old(self).was_connected },
                        poll_interval_secs: POLL_IDLE_SECS,
                    }
                },
            },
    {
        match state {
            Some(st) => {
                let show = !self.tray_visible;
                self.tray_visible = true;
                let c = st.link == LinkInfo::Active;
                let icon = if c != self.was_connected { Some(c) } else { None };
                self.was_connected = c;
                self.poll_interval_secs = poll_interval_secs(c);
                PollActions {
                    show_tray: show,
                    hide_tray: false,
                    reapply_settings: show,
                    set_icon_connected: icon,
                    refresh_status: true,
                    activity: c,
                }
            },
            None => {
                let hide = self.tray_visible;
                if hide {
                    self.tray_visible = false;
                    self.was_connected = false;
                }
                self.poll_interval_secs = POLL_IDLE_SECS;
                PollActions {
                    show_tray: false,
                    hide_tray: hide,
                    reapply_settings: false,
                    set_icon_connected: None,
                    refresh_status: false,
                    activity: false,
                }
            },
        }
    }
}

} // verus!
