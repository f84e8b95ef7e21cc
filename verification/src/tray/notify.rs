//! Battery alerts: when to warn that the headset battery is low.
//!
//! The application shows the alerts as native notifications.

use vstd::prelude::*;
use crate::text::{dec_text, push_decimal, push_str};

verus! {

/// Battery level at or below which a low-battery alert is shown.
pub const WARNING_THRESHOLD: u8 = 15;

/// Battery level at or below which a critical-battery alert is shown.
pub const CRITICAL_THRESHOLD: u8 = 5;

/// An alert to show, with the battery level that triggered it.
#[derive(Debug, Clone, Copy, PartialEq, Eq, Structural)]
pub enum BatteryAlert {
    Low(u8),
    Critical(u8),
}

impl BatteryAlert {
    /// The alert's title.
    pub open spec fn title_text(self) -> Seq<char> {
        match self {
            BatteryAlert::Low(_) => "Battery Low"@,
            BatteryAlert::Critical(_) => "Battery Critical"@,
        }
    }

    /// The alert's message.
    pub open spec fn message_text(self) -> Seq<char> {
        match self {
            BatteryAlert::Low(b) => "Headset battery at "@ + dec_text(b as nat) + "%. Consider charging."@,
            BatteryAlert::Critical(b) => "Headset battery at "@ + dec_text(b as nat) + "%! Charge soon."@,
        }
    }

    /// The alert's title.
    pub fn title(&self) -> (s: &'static str)
        ensures
            s@ == self.title_text(),
    {
        match self {
            Self::Low(_) => "Battery Low",
            Self::Critical(_) => "Battery Critical",
        }
    }

    /// The alert's message, e.g. `Headset battery at 14%. Consider charging.`
    pub fn message(&self) -> (s: String)
        ensures
            s@ == self.message_text(),
    {
        let mut s = String::from_str("Headset battery at ");
        match self {
            Self::Low(b) => {
                push_decimal(&mut s, *b as u64);
                push_str(&mut s, "%. Consider charging.");
            },
            Self::Critical(b) => {
                push_decimal(&mut s, *b as u64);
                push_str(&mut s, "%! Charge soon.");
            },
        }
        s
    }
}

/// Tracks which battery alerts have already been shown to avoid spam.
pub struct BatteryNotifier {
    warned_15: bool,
    warned_5: bool,
    last_battery: u8,
}

impl BatteryNotifier {
    /// A low-battery alert has been shown and not yet reset.
    pub closed spec fn warned_low(self) -> bool {
        self.warned_15
    }

    /// A critical-battery alert has been shown and not yet reset.
    pub closed spec fn warned_critical(self) -> bool {
        self.warned_5
    }

    /// The battery level seen last.
    pub closed spec fn last_level(self) -> u8 {
        self.last_battery
    }

    /// Whether a reading of `battery` shows the low-battery alert: the level
    /// crosses down to the warning threshold and no low alert is pending.
    pub open spec fn low_due(self, battery: u8) -> bool {
        &&& battery <= WARNING_THRESHOLD
        &&& self.last_level() > WARNING_THRESHOLD
        &&& !self.warned_low()
    }

    /// Whether a reading of `battery` shows the critical-battery alert.
    pub open spec fn critical_due(self, battery: u8) -> bool {
        &&& battery <= CRITICAL_THRESHOLD
        &&& self.last_level() > CRITICAL_THRESHOLD
        &&& !self.warned_critical()
    }

    /// The alerts a reading of `battery` shows, low before critical.
    pub open spec fn alerts_for(self, battery: u8) -> Seq<BatteryAlert> {
        (if self.low_due(battery) { seq![BatteryAlert::Low(battery)] } else { Seq::empty() })
            + (if self.critical_due(battery) { seq![BatteryAlert::Critical(battery)] } else { Seq::empty() })
    }

    /// The notifier after a reading of `battery`.
    pub closed spec fn after(self, battery: u8) -> BatteryNotifier {
        BatteryNotifier {
            warned_15: self.low_due(battery) || (self.warned_15 && battery <= WARNING_THRESHOLD),
            warned_5: self.critical_due(battery) || (self.warned_5 && battery <= CRITICAL_THRESHOLD),
            last_battery: battery,
        }
    }

    /// What a reading changes: a flag is set by its alert, kept while the
    /// level stays at or below its threshold, and cleared above it; the level
    /// is remembered.
    pub proof fn lemma_after(self, battery: u8)
        ensures
            self.after(battery).warned_low() == (self.low_due(battery)
                || (self.warned_low() && battery <= WARNING_THRESHOLD)),
            self.after(battery).warned_critical() == (self.critical_due(battery)
                || (self.warned_critical() && battery <= CRITICAL_THRESHOLD)),
            self.after(battery).last_level() == battery,
    {
    }

    /// A notifier that has shown nothing, as if the battery were full.
    pub fn new() -> (n: Self)
        ensures
            !n.warned_low(),
            !n.warned_critical(),
            n.last_level() == 100,
    {
        Self { warned_15: false, warned_5: false, last_battery: 100 }
    }

    /// Check a battery level reading and return the alerts to show.
    ///
    /// Only alerts once per threshold crossing. Resets when the battery goes
    /// above the threshold again (e.g., after charging).
    pub fn check(&mut self, battery: u8) -> (alerts: Vec<BatteryAlert>)
        ensures
            alerts@ == old(self).alerts_for(battery),
            *final(self) == old(self).after(battery),
    {
        let ghost before = *self;
        if battery > WARNING_THRESHOLD {
            self.warned_15 = false;
        }
        if battery > CRITICAL_THRESHOLD {
            self.warned_5 = false;
        }
        let mut alerts: Vec<BatteryAlert> = Vec::new();
        if battery <= WARNING_THRESHOLD && self.last_battery > WARNING_THRESHOLD && !self.warned_15 {
            self.warned_15 = true;
            alerts.push(BatteryAlert::Low(battery));
        }
        if battery <= CRITICAL_THRESHOLD && self.last_battery > CRITICAL_THRESHOLD && !self.warned_5 {
            self.warned_5 = true;
            alerts.push(BatteryAlert::Critical(battery));
        }
        self.last_battery = battery;
        assert(alerts@ =~= before.alerts_for(battery));
        alerts
    }
}

/// Each alert is shown once per crossing: after a low (critical) alert, no
/// further low (critical) alert comes while the level stays at or below its
/// threshold, whatever the readings in between; an alert only comes when the
/// level crosses down to its threshold; and once the level has risen above
/// the threshold, the next crossing alerts again.
pub proof fn lemma_alert_once_per_crossing(n: BatteryNotifier, b1: u8, b2: u8)
    ensures
        n.low_due(b1) && b2 <= WARNING_THRESHOLD ==> !n.after(b1).low_due(b2),
        n.critical_due(b1) && b2 <= CRITICAL_THRESHOLD ==> !n.after(b1).critical_due(b2),
        n.warned_low() && b1 <= WARNING_THRESHOLD ==> !n.low_due(b1) && n.after(b1).warned_low(),
        n.warned_critical() && b1 <= CRITICAL_THRESHOLD ==> !n.critical_due(b1) && n.after(b1).warned_critical(),
        n.low_due(b1) ==> b1 <= WARNING_THRESHOLD && n.last_level() > WARNING_THRESHOLD,
        n.critical_due(b1) ==> b1 <= CRITICAL_THRESHOLD && n.last_level() > CRITICAL_THRESHOLD,
        b1 > WARNING_THRESHOLD && b2 <= WARNING_THRESHOLD ==> n.after(b1).low_due(b2),
        b1 > CRITICAL_THRESHOLD && b2 <= CRITICAL_THRESHOLD ==> n.after(b1).critical_due(b2),
{
    n.lemma_after(b1);
}

} // verus!
