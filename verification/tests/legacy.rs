use corsair_headset::legacy::firmware::{decode_firmware_version, FirmwareVersion};
use corsair_headset::legacy::mode::{decode_device_mode, encode_set_device_mode};
use corsair_headset::legacy::pairing::{encode_link_state_notify, encode_start_pairing};
use corsair_headset::legacy::power::{
    encode_reset, encode_set_auto_shutdown, encode_set_power_state, encode_shutdown,
};
use corsair_headset::legacy::sidetone::{
    encode_set_sidetone_level, encode_set_sidetone_mute, level_to_db,
};
use corsair_headset::legacy::state::decode_state;
use corsair_headset::legacy::types::{
    BatteryState, LinkState, OperatingMode, PowerDownState, ReportId, ValueId,
};
use corsair_headset::legacy::value::{
    encode_request_data, encode_request_device_mode, encode_request_firmware_version,
    encode_request_state, encode_set_eq_preset, encode_set_mic_mute, encode_set_surround,
};
use corsair_headset::report::Report;

#[test]
fn decode_firmware() {
    let report = Report::from_input(&[0x66, 0x03, 0x0A, 0x01, 0x05]).unwrap();
    let info = decode_firmware_version(&report).unwrap();
    assert_eq!(info.transmitter, FirmwareVersion { major: 3, minor: 10 });
    assert_eq!(info.receiver, FirmwareVersion { major: 1, minor: 5 });
    assert_eq!(info.transmitter.to_string(), "3.10");
}

#[test]
fn decode_hardware_mode() {
    let report = Report::from_input(&[0x65, 0x00, 0x00]).unwrap();
    let dm = decode_device_mode(&report).unwrap();
    assert_eq!(dm.mode, OperatingMode::Hardware);
    assert!(!dm.media_events_disabled);
}

#[test]
fn decode_software_mode_media_disabled() {
    let report = Report::from_input(&[0x65, 0x01, 0x01]).unwrap();
    let dm = decode_device_mode(&report).unwrap();
    assert_eq!(dm.mode, OperatingMode::Software);
    assert!(dm.media_events_disabled);
}

#[test]
fn encode_software_mode() {
    let report = encode_set_device_mode(OperatingMode::Software);
    assert_eq!(report.id(), 0xC8);
    assert_eq!(report.payload()[0], 1);
}

#[test]
fn start_pairing_structure() {
    let report = encode_start_pairing();
    assert_eq!(report.id(), ReportId::Extended.to_byte());
    assert_eq!(report.len(), 3);
    let p = report.payload();
    assert_eq!(p[0], 0x02);
    assert_eq!(p[1], 0x00);
    assert_eq!(p[2], 0x40);
}

#[test]
fn link_state_notify_structure() {
    let report = encode_link_state_notify();
    assert_eq!(report.id(), ReportId::Extended.to_byte());
    assert_eq!(report.len(), 5);
}

#[test]
fn encode_power_state_reset() {
    let report = encode_set_power_state(PowerDownState::Reset);
    assert_eq!(report.id(), 0xCC);
    assert_eq!(report.payload()[0], PowerDownState::Reset as u8);
    assert_eq!(report.payload()[0], 1);
}

#[test]
fn encode_power_state_shutdown() {
    let report = encode_set_power_state(PowerDownState::Shutdown);
    assert_eq!(report.id(), 0xCC);
    assert_eq!(report.payload()[0], PowerDownState::Shutdown as u8);
    assert_eq!(report.payload()[0], 2);
}

#[test]
fn encode_power_state_invalid() {
    let report = encode_set_power_state(PowerDownState::Invalid);
    assert_eq!(report.id(), 0xCC);
    assert_eq!(report.payload()[0], 0);
}

#[test]
fn encode_reset_convenience() {
    let report = encode_reset();
    assert_eq!(report.id(), 0xCC);
    assert_eq!(report.payload()[0], PowerDownState::Reset as u8);
}

#[test]
fn encode_shutdown_convenience() {
    let report = encode_shutdown();
    assert_eq!(report.id(), 0xCC);
    assert_eq!(report.payload()[0], PowerDownState::Shutdown as u8);
}

#[test]
fn encode_auto_shutdown_payload_size() {
    let report = encode_set_auto_shutdown(30);
    assert_eq!(report.id(), 0xFF);
    assert_eq!(report.len(), 10);
}

#[test]
fn encode_auto_shutdown_timeout_encoding() {
    let report = encode_set_auto_shutdown(300);
    let p = report.payload();
    // 300 = 0x012C -> LE: [0x2C, 0x01]
    assert_eq!(p[8], 0x2C);
    assert_eq!(p[9], 0x01);
}

#[test]
fn encode_auto_shutdown_disabled() {
    let report = encode_set_auto_shutdown(0);
    let p = report.payload();
    assert_eq!(p[8], 0x00);
    assert_eq!(p[9], 0x00);
}

#[test]
fn level_to_db_zero() {
    // 20 * log10(0/100 + 1) = 20 * log10(1) = 0
    assert_eq!(level_to_db(0), 0);
}

#[test]
fn level_to_db_max() {
    // 20 * log10(100/100 + 1) = 20 * log10(2) ≈ 6.02 → truncated to 6
    assert_eq!(level_to_db(100), 6);
}

#[test]
fn level_to_db_mid() {
    // 20 * log10(50/100 + 1) = 20 * log10(1.5) ≈ 3.52 → 3
    assert_eq!(level_to_db(50), 3);
}

#[test]
fn encode_sidetone_report_structure() {
    let report = encode_set_sidetone_level(50);
    assert_eq!(report.id(), 0xFF);
    let p = report.payload();
    assert_eq!(p[0], 0x0B); // size
    assert_eq!(p[2], 0xFF); // report ID echo
    assert_eq!(p[8], 0x04); // sub-command
    assert_eq!(p[10], level_to_db(50));
}

#[test]
fn encode_mute_silent() {
    let reports = encode_set_sidetone_mute(true, true);
    assert_eq!(reports.len(), 1);
    assert_eq!(reports[0].id(), 0xCA);
    assert_eq!(reports[0].payload()[0], ValueId::SidetoneState as u8);
    assert_eq!(reports[0].payload()[1], 1); // muted = true
}

#[test]
fn encode_mute_non_silent() {
    let reports = encode_set_sidetone_mute(true, false);
    assert_eq!(reports.len(), 3);
    // First: AudioIndicationsState
    assert_eq!(reports[0].payload()[0], ValueId::AudioIndicationsState as u8);
    // Second: SidetoneState
    assert_eq!(reports[1].payload()[0], ValueId::SidetoneState as u8);
}

#[test]
fn sidetone_mute_reports_carry_four_bytes() {
    let reports = encode_set_sidetone_mute(false, false);
    assert_eq!(reports[0].wire_bytes(), vec![0xCA, 0x04, 0x00, 0x00, 0x00]);
    assert_eq!(reports[1].wire_bytes(), vec![0xCA, 0x05, 0x00, 0x00, 0x00]);
    assert_eq!(reports[2].wire_bytes(), vec![0xCA, 0x04, 0x01, 0x00, 0x00]);
    let silent = encode_set_sidetone_mute(true, true);
    assert_eq!(silent[0].wire_bytes(), vec![0xCA, 0x05, 0x01, 0x00, 0x00]);
}

#[test]
fn set_value_payload_is_four_bytes() {
    let report = encode_set_mic_mute(true);
    assert_eq!(report.len(), 4);
    assert_eq!(report.wire_bytes(), vec![0xCA, ValueId::MicState as u8, 1, 0, 0]);
    let report = encode_set_surround(false);
    assert_eq!(report.wire_bytes(), vec![0xCA, ValueId::SurroundState as u8, 0, 0, 0]);
}

#[test]
fn set_device_mode_payload_is_mode_then_flag() {
    let report = encode_set_device_mode(OperatingMode::Hardware);
    assert_eq!(report.len(), 2);
    assert_eq!(report.wire_bytes(), vec![0xC8, 0x00, 0x00]);
    let report = encode_set_device_mode(OperatingMode::Software);
    assert_eq!(report.wire_bytes(), vec![0xC8, 0x01, 0x00]);
}

#[test]
fn decode_state_basic() {
    // buttons=0, battery=75% boom down, link=active, state=ok
    let report = Report::from_input(&[0x64, 0x00, 0x80 | 75, 0x01, 0x01]).unwrap();
    let state = decode_state(&report).unwrap();
    assert_eq!(state.buttons, 0);
    assert_eq!(state.battery_percent, 75);
    assert!(!state.mic_boom_up); // bit 7 set = boom down
    assert_eq!(state.link_state, LinkState::Active);
    assert_eq!(state.battery_state, BatteryState::Normal);
}

#[test]
fn decode_state_mic_boom_up() {
    // battery=50 (no bit 7 = boom up), link=standby, charging
    let report = Report::from_input(&[0x64, 0x00, 50, 0x04, 0x05]).unwrap();
    let state = decode_state(&report).unwrap();
    assert_eq!(state.battery_percent, 50);
    assert!(state.mic_boom_up);
    assert_eq!(state.link_state, LinkState::Standby);
    assert_eq!(state.battery_state, BatteryState::Charging);
    assert!(state.battery_state.is_charging());
}

#[test]
fn decode_state_wrong_id() {
    let report = Report::from_input(&[0x65, 0x00, 0x00, 0x00, 0x00]).unwrap();
    assert!(decode_state(&report).is_err());
}

#[test]
fn decode_state_too_short() {
    let report = Report::from_input(&[0x64, 0x00, 0x00]).unwrap();
    assert!(decode_state(&report).is_err());
}

#[test]
fn set_value_mic_mute() {
    let report = encode_set_mic_mute(true);
    assert_eq!(report.id(), ReportId::SetValue.to_byte());
    assert_eq!(report.payload()[0], ValueId::MicState as u8);
    assert_eq!(report.payload()[1], 1);
}

#[test]
fn set_value_eq_preset() {
    let report = encode_set_eq_preset(2);
    assert_eq!(report.payload()[0], ValueId::EqIndex as u8);
    assert_eq!(report.payload()[1], 2);
}

#[test]
fn request_data_carries_report_id() {
    let report = encode_request_data(ReportId::State);
    assert_eq!(report.id(), ReportId::RequestData.to_byte());
    assert_eq!(report.payload()[0], ReportId::State.to_byte());
}

#[test]
fn request_state() {
    let report = encode_request_state();
    assert_eq!(report.id(), ReportId::RequestData.to_byte());
    assert_eq!(report.payload()[0], ReportId::State.to_byte());
}

#[test]
fn request_device_mode() {
    let report = encode_request_device_mode();
    assert_eq!(report.payload()[0], ReportId::DeviceModeIn.to_byte());
}

#[test]
fn request_firmware_version() {
    let report = encode_request_firmware_version();
    assert_eq!(report.payload()[0], ReportId::FirmwareVersion.to_byte());
}
