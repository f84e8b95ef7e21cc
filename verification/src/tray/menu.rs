//! What a menu choice does: the command sent to the headset and the change
//! to the saved settings. The application shows the menu and carries out
//! the outcome.

use vstd::prelude::*;
use crate::tray::settings::{eq_name_of, led_name_of, Settings};

verus! {

/// A choice made in the tray menu.
#[derive(Debug, Clone, Copy, PartialEq, Eq, Structural)]
pub enum MenuChoice {
    /// "Power Off".
    PowerOff,
    /// "LED Off".
    LedOff,
    /// A named LED color, by its RGB value.
    LedColor(u8, u8, u8),
    /// The sidetone check item.
    ToggleSidetone,
    /// An EQ preset, by index.
    EqPreset(u8),
    /// An auto-sleep timeout in minutes (0 turns auto-sleep off).
    SleepTimeout(u64),
}

/// A command for the headset.
#[derive(Debug, Clone, Copy, PartialEq, Eq, Structural)]
pub enum HeadsetCommand {
    /// Power the headset off.
    Shutdown,
    /// Turn all LEDs off.
    LedOff,
    /// Set both logo LEDs to this color.
    LedColor(u8, u8, u8),
    /// Turn sidetone on or off.
    Sidetone(bool),
    /// Select this EQ preset.
    EqPreset(u8),
}

/// The outcome of a menu choice.
#[derive(Debug, Clone, Copy, PartialEq, Eq, Structural)]
pub struct MenuOutcome {
    /// The command to send, if any.
    pub command: Option<HeadsetCommand>,
    /// The settings changed and are to be written back.
    pub save_settings: bool,
    /// The auto-sleep countdown starts over.
    pub reset_activity: bool,
}

/// The settings fields that a choice does not touch are kept.
pub open spec fn same_except_led(a: Settings, b: Settings) -> bool {
    a.sidetone == b.sidetone && a.eq_preset == b.eq_preset && a.auto_sleep_minutes == b.auto_sleep_minutes
}

/// Carry out the decisions of a menu choice on the settings and say what to
/// send and whether to save.
pub fn on_menu_choice(settings: &mut Settings, choice: MenuChoice) -> (o: MenuOutcome)
    ensures
        match choice {
            MenuChoice::PowerOff => {
                &&& o == MenuOutcome { command: Some(HeadsetCommand::Shutdown), save_settings: false, reset_activity: false }
                &&& *final(settings) == *old(settings)
            },
            MenuChoice::LedOff => {
                &&& o == MenuOutcome { command: Some(HeadsetCommand::LedOff), save_settings: true, reset_activity: false }
                &&& final(settings).led_color is None
                &&& same_except_led(*final(settings), *old(settings))
            },
            MenuChoice::LedColor(r, g, b) => {
                &&& o == MenuOutcome { command: Some(HeadsetCommand::LedColor(r, g, b)), save_settings: true, reset_activity: false }
                &&& match led_name_of((r, g, b)) {
                    None => final(settings).led_color is None,
                    Some(name) => final(settings).led_color matches Some(s) && s@ == name,
                }
                &&& same_except_led(*final(settings), *old(settings))
            },
            MenuChoice::ToggleSidetone => {
                &&& o == MenuOutcome {
                    command: Some(HeadsetCommand::Sidetone(!old(settings).sidetone)),
                    save_settings: true,
                    reset_activity: false,
                }
                &&& final(settings).sidetone == !old(settings).sidetone
                &&& final(settings).eq_preset == old(settings).eq_preset
                &&& final(settings).led_color == old(settings).led_color
                &&& final(settings).auto_sleep_minutes == old(settings).auto_sleep_minutes
            },
            MenuChoice::EqPreset(idx) => {
                &&& o == MenuOutcome { command: Some(HeadsetCommand::EqPreset(idx)), save_settings: true, reset_activity: false }
                &&& final(settings).eq_preset@ == eq_name_of(idx)
                &&& final(settings).sidetone == old(settings).sidetone
                &&& final(settings).led_color == old(settings).led_color
                &&& final(settings).auto_sleep_minutes == old(settings).auto_sleep_minutes
            },
            MenuChoice::SleepTimeout(mins) => {
                &&& o == MenuOutcome { command: None, save_settings: true, reset_activity: true }
                &&& final(settings).auto_sleep_minutes == mins
                &&& final(settings).sidetone == old(settings).sidetone
                &&& final(settings).eq_preset == old(settings).eq_preset
                &&& final(settings).led_color == old(settings).led_color
            },
        },
{
    match choice {
        MenuChoice::PowerOff => {
            MenuOutcome { command: Some(HeadsetCommand::Shutdown), save_settings: false, reset_activity: false }
        },
        MenuChoice::LedOff => {
            settings.led_color = None;
            MenuOutcome { command: Some(HeadsetCommand::LedOff), save_settings: true, reset_activity: false }
        },
        MenuChoice::LedColor(r, g, b) => {
            settings.set_led_rgb(r, g, b);
            MenuOutcome { command: Some(HeadsetCommand::LedColor(r, g, b)), save_settings: true, reset_activity: false }
        },
        MenuChoice::ToggleSidetone => {
            let on = !settings.sidetone;
            settings.sidetone = on;
            MenuOutcome { command: Some(HeadsetCommand::Sidetone(on)), save_settings: true, reset_activity: false }
        },
        MenuChoice::EqPreset(idx) => {
            settings.set_eq_index(idx);
            MenuOutcome { command: Some(HeadsetCommand::EqPreset(idx)), save_settings: true, reset_activity: false }
        },
        MenuChoice::SleepTimeout(mins) => {
            settings.auto_sleep_minutes = mins;
            MenuOutcome { command: None, save_settings: true, reset_activity: true }
        },
    }
}

} // verus!
