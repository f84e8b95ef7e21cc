use corsair_headset::transport::{
    find_headset_interface, is_corsair_interface, read_backoff_ms, PacedTransport, TransportError,
};
use corsair_headset::tray::menu::{on_menu_choice, HeadsetCommand, MenuChoice, MenuOutcome};
use corsair_headset::tray::headset::{
    parse_state, reconnect_due, sidetone_report, BatteryInfo, HeadsetState, LinkInfo,
};
use corsair_headset::tray::icon::headphone_rgba;
use corsair_headset::tray::notify::{BatteryAlert, BatteryNotifier};
use corsair_headset::tray::settings::Settings;
use corsair_headset::tray::status::{
    fmt_battery, fmt_fw, fmt_link, fmt_mic, poll_interval_secs, settings_reports,
    should_auto_sleep, sleep_countdown_text, tray_title, TrayState,
};

fn sample_state(link: LinkInfo) -> HeadsetState {
    HeadsetState {
        battery: 75,
        battery_state: BatteryInfo::Normal,
        mic_boom_up: false,
        link,
        fw_tx: "3.10".to_string(),
        fw_rx: "1.5".to_string(),
    }
}

#[test]
fn parse_state_reads_report_bytes() {
    let s = parse_state(&[0x64, 0x00, 0x80 | 90, 0x01, 0x05], Some(&[0x66, 3, 10, 1, 5])).unwrap();
    assert_eq!(s.battery, 90);
    assert!(!s.mic_boom_up);
    assert_eq!(s.link, LinkInfo::Active);
    assert_eq!(s.battery_state, BatteryInfo::Charging);
    assert_eq!(s.fw_tx, "3.10");
    assert_eq!(s.fw_rx, "1.5");
    // Battery is not clamped here.
    let s = parse_state(&[0x64, 0x00, 0x7F, 0x03, 0x00], None).unwrap();
    assert_eq!(s.battery, 127);
    assert_eq!(s.link, LinkInfo::Searching);
    assert_eq!(s.battery_state, BatteryInfo::Unknown);
    assert_eq!(s.fw_tx, "?");
    assert!(parse_state(&[0x64, 0, 0, 0], None).is_none());
    let s = parse_state(&[0x64, 0, 0, 0, 0], Some(&[0x66, 1, 2, 3])).unwrap();
    assert_eq!(s.fw_rx, "?");
}

#[test]
fn labels() {
    assert_eq!(BatteryInfo::from_byte(1).label(), "Ok");
    assert_eq!(BatteryInfo::from_byte(0x0B).label(), "Critical");
    assert_eq!(LinkInfo::from_byte(4).label(), "Standby");
    assert_eq!(LinkInfo::from_byte(2).label(), "Disconnected");
    assert_eq!(LinkInfo::from_byte(9), LinkInfo::Searching);
}

#[test]
fn sidetone_is_an_inverted_mute_flag() {
    let r = sidetone_report(true);
    assert_eq!(r.wire_bytes(), vec![0xCA, 0x05, 0x00, 0x00, 0x00]);
    let r = sidetone_report(false);
    assert_eq!(r.wire_bytes(), vec![0xCA, 0x05, 0x01, 0x00, 0x00]);
}

#[test]
fn reconnect_cooldown() {
    assert!(!reconnect_due(true, 10_000));
    assert!(!reconnect_due(false, 4_999));
    assert!(reconnect_due(false, 5_000));
}

#[test]
fn notifier_alerts_once_per_crossing() {
    let mut n = BatteryNotifier::new();
    assert!(n.check(50).is_empty());
    assert_eq!(n.check(15), vec![BatteryAlert::Low(15)]);
    assert!(n.check(14).is_empty());
    assert!(n.check(12).is_empty());
    // Rising above 15% re-arms the low alert.
    assert!(n.check(17).is_empty());
    assert_eq!(n.check(14), vec![BatteryAlert::Low(14)]);
    assert_eq!(n.check(5), vec![BatteryAlert::Critical(5)]);
    assert!(n.check(4).is_empty());
    // Rising above 5% re-arms the critical alert.
    assert!(n.check(6).is_empty());
    assert_eq!(n.check(5), vec![BatteryAlert::Critical(5)]);
    // Charging above 15% re-arms both.
    assert!(n.check(30).is_empty());
    assert_eq!(n.check(3), vec![BatteryAlert::Low(3), BatteryAlert::Critical(3)]);
}

#[test]
fn alert_texts() {
    assert_eq!(BatteryAlert::Low(14).title(), "Battery Low");
    assert_eq!(BatteryAlert::Low(14).message(), "Headset battery at 14%. Consider charging.");
    assert_eq!(BatteryAlert::Critical(5).title(), "Battery Critical");
    assert_eq!(BatteryAlert::Critical(5).message(), "Headset battery at 5%! Charge soon.");
}

#[test]
fn settings_roundtrip() {
    let mut s = Settings::default();
    assert!(s.sidetone);
    assert_eq!(s.eq_preset, "pure-direct");
    assert_eq!(s.eq_index(), 0);
    for i in 0..5u8 {
        s.set_eq_index(i);
        assert_eq!(s.eq_index(), i);
    }
    s.set_eq_index(9);
    assert_eq!(s.eq_preset, "pure-direct");
    s.eq_preset = "unknown".to_string();
    assert_eq!(s.eq_index(), 0);
    s.set_eq_index(3);
    assert_eq!(s.eq_preset, "fps");

    assert_eq!(s.led_rgb(), None);
    s.set_led_rgb(255, 165, 0);
    assert_eq!(s.led_color.as_deref(), Some("orange"));
    assert_eq!(s.led_rgb(), Some([255, 165, 0]));
    s.set_led_rgb(1, 2, 3);
    assert_eq!(s.led_color, None);
    s.led_color = Some("mauve".to_string());
    assert_eq!(s.led_rgb(), None);
}

#[test]
fn status_lines() {
    let st = Some(sample_state(LinkInfo::Active));
    assert_eq!(fmt_battery(&st), "Battery: 75% (Ok)");
    assert_eq!(fmt_mic(&st), "Mic: On");
    assert_eq!(fmt_link(&st), "Link: Active");
    assert_eq!(fmt_fw(&st), "FW 3.10/1.5");
    assert_eq!(tray_title(&st), "75%");
    let st = Some(sample_state(LinkInfo::Searching));
    assert_eq!(tray_title(&st), "Searching");
    let none: Option<HeadsetState> = None;
    assert_eq!(fmt_battery(&none), "Battery: --");
    assert_eq!(fmt_mic(&none), "Mic: --");
    assert_eq!(fmt_link(&none), "Link: --");
    assert_eq!(fmt_fw(&none), "FW --");
    assert_eq!(tray_title(&none), "");
    let mut up = sample_state(LinkInfo::Standby);
    up.mic_boom_up = true;
    assert_eq!(fmt_mic(&Some(up)), "Mic: Off (boom up)");
    assert_eq!(poll_interval_secs(true), 15);
    assert_eq!(poll_interval_secs(false), 120);
}

#[test]
fn sleep_timer() {
    let sec: u128 = 1_000_000_000;
    assert_eq!(sleep_countdown_text(0, 0), "");
    assert_eq!(sleep_countdown_text(15, 55 * sec + 1), "Sleep in 14:04");
    assert_eq!(sleep_countdown_text(1, 0), "Sleep in 1:00");
    assert_eq!(sleep_countdown_text(15, 15 * 60 * sec), "Sleep: imminent");
    assert!(!should_auto_sleep(0, true, 1_000 * sec));
    assert!(!should_auto_sleep(15, false, 1_000 * sec));
    assert!(!should_auto_sleep(15, true, 15 * 60 * sec - 1));
    assert!(should_auto_sleep(15, true, 15 * 60 * sec));
}

#[test]
fn settings_apply_reports() {
    let mut s = Settings::default();
    s.sidetone = false;
    s.set_eq_index(2);
    let r = settings_reports(&s);
    assert_eq!(r.len(), 2);
    assert_eq!(r[0].wire_bytes(), vec![0xCA, 0x05, 0x01, 0x00, 0x00]);
    assert_eq!(r[1].wire_bytes(), vec![0xCA, 0x01, 0x02, 0x00, 0x00]);
    s.set_led_rgb(255, 0, 0);
    let r = settings_reports(&s);
    assert_eq!(r.len(), 4);
    assert_eq!(r[2].payload()[1..7], [0x1C, 255, 0x16, 0, 0x17, 0]);
    assert_eq!(r[3].payload()[1..7], [0x1D, 255, 0x18, 0, 0x19, 0]);
}

#[test]
fn tray_poll_state_machine() {
    let mut t = TrayState::new(false, false);
    let a = t.on_poll(&Some(sample_state(LinkInfo::Active)));
    assert!(a.show_tray && a.reapply_settings && a.refresh_status && a.activity);
    assert_eq!(a.set_icon_connected, Some(true));
    assert_eq!(t.poll_interval_secs, 15);
    let a = t.on_poll(&Some(sample_state(LinkInfo::Active)));
    assert!(!a.show_tray && !a.reapply_settings);
    assert_eq!(a.set_icon_connected, None);
    let a = t.on_poll(&Some(sample_state(LinkInfo::Standby)));
    assert_eq!(a.set_icon_connected, Some(false));
    assert!(!a.activity);
    assert_eq!(t.poll_interval_secs, 120);
    let a = t.on_poll(&None);
    assert!(a.hide_tray);
    assert!(!t.tray_visible && !t.was_connected);
    let a = t.on_poll(&None);
    assert!(!a.hide_tray);
}

#[test]
fn icon_pixels() {
    let rgba = headphone_rgba();
    assert_eq!(rgba.len(), 18 * 18 * 4);
    // Row 0 is filled from column 6 to 11.
    assert_eq!(rgba[(0 * 18 + 5) * 4 + 3], 0);
    assert_eq!(rgba[(0 * 18 + 6) * 4 + 3], 255);
    assert_eq!(rgba[(0 * 18 + 11) * 4 + 3], 255);
    assert_eq!(rgba[(0 * 18 + 12) * 4 + 3], 0);
    assert!(rgba.chunks(4).all(|p| p[0] == 0 && p[1] == 0 && p[2] == 0));
    assert_eq!(rgba.chunks(4).filter(|p| p[3] == 255).count(), 86);
}

#[test]
fn interface_filters() {
    assert!(is_corsair_interface(0x1B1C, 0xFFC5));
    assert!(is_corsair_interface(0x1B1C, 0xFF00));
    assert!(!is_corsair_interface(0x1B1C, 0x000C));
    assert!(!is_corsair_interface(0x046D, 0xFFC5));
    let ifaces = [(0x046D, 0xFFC5), (0x1B1C, 0xFF00), (0x1B1C, 0xFFC5), (0x1B1C, 0xFFC5)];
    assert_eq!(find_headset_interface(&ifaces), Some(2));
    assert_eq!(find_headset_interface(&ifaces[..2]), None);
}

#[test]
fn pacing() {
    let mut p = PacedTransport::legacy(());
    assert_eq!(p.delay_ms(), 35);
    assert_eq!(p.wait_before_send(1000), 0);
    p.record_send(1000);
    assert_eq!(p.wait_before_send(1000), 35);
    assert_eq!(p.wait_before_send(1010), 25);
    assert_eq!(p.wait_before_send(1035), 0);
    assert_eq!(p.wait_before_send(900), 35);
    let b = PacedTransport::bragi(7u32);
    assert_eq!(b.delay_ms(), 20);
    assert_eq!(*b.inner(), 7);
}

#[test]
fn transport_error_texts() {
    assert_eq!(TransportError::DeviceNotFound.to_string(), "device not found");
    assert_eq!(TransportError::Io("broken pipe".to_string()).to_string(), "i/o error: broken pipe");
    assert_eq!(TransportError::Timeout.to_string(), "timeout waiting for report");
    assert_eq!(TransportError::Disconnected.to_string(), "device disconnected");
}

#[test]
fn read_backoff_after_empty_and_failed_reads() {
    assert_eq!(read_backoff_ms(Some(0)), Some(1));
    assert_eq!(read_backoff_ms(None), Some(50));
    assert_eq!(read_backoff_ms(Some(5)), None);
}

#[test]
fn menu_choices_update_settings_and_command() {
    let mut s = Settings::default();
    assert!(s.sidetone);
    let o = on_menu_choice(&mut s, MenuChoice::ToggleSidetone);
    assert_eq!(o, MenuOutcome { command: Some(HeadsetCommand::Sidetone(false)), save_settings: true, reset_activity: false });
    assert!(!s.sidetone);
    let o = on_menu_choice(&mut s, MenuChoice::ToggleSidetone);
    assert_eq!(o.command, Some(HeadsetCommand::Sidetone(true)));
    assert!(s.sidetone);

    let o = on_menu_choice(&mut s, MenuChoice::EqPreset(2));
    assert_eq!(o.command, Some(HeadsetCommand::EqPreset(2)));
    assert_eq!(s.eq_index(), 2);

    let o = on_menu_choice(&mut s, MenuChoice::LedColor(255, 0, 0));
    assert_eq!(o.command, Some(HeadsetCommand::LedColor(255, 0, 0)));
    assert_eq!(s.led_rgb(), Some([255, 0, 0]));
    let o = on_menu_choice(&mut s, MenuChoice::LedOff);
    assert_eq!(o.command, Some(HeadsetCommand::LedOff));
    assert_eq!(s.led_color, None);

    let o = on_menu_choice(&mut s, MenuChoice::SleepTimeout(15));
    assert_eq!(o, MenuOutcome { command: None, save_settings: true, reset_activity: true });
    assert_eq!(s.auto_sleep_minutes, 15);

    let before = s.clone();
    let o = on_menu_choice(&mut s, MenuChoice::PowerOff);
    assert_eq!(o, MenuOutcome { command: Some(HeadsetCommand::Shutdown), save_settings: false, reset_activity: false });
    assert_eq!(s.eq_preset, before.eq_preset);
    assert_eq!(s.sidetone, before.sidetone);
    assert_eq!(s.auto_sleep_minutes, before.auto_sleep_minutes);
}
