use corsair_headset::legacy::lighting::{encode_set_brightness, LedZone};
use corsair_headset::legacy::mode::decode_device_mode;
use corsair_headset::legacy::sidetone::{db_to_level, encode_sidetone_feature, level_to_db};
use corsair_headset::legacy::state::decode_state;
use corsair_headset::legacy::types::{BatteryState, LinkState, OperatingMode, ReportId, ValueId};
use corsair_headset::error::DecodeError;
use corsair_headset::report::Report;

#[test]
fn level_to_db_steps() {
    let expected: Vec<u8> = (0..=100u8)
        .map(|p| if p >= 100 { 6 } else if p >= 78 { 5 } else if p >= 59 { 4 } else if p >= 42 { 3 } else if p >= 26 { 2 } else if p >= 13 { 1 } else { 0 })
        .collect();
    for p in 0..=100u8 {
        assert_eq!(level_to_db(p), expected[p as usize], "level {p}");
    }
    assert_eq!(level_to_db(12), 0);
    assert_eq!(level_to_db(13), 1);
    assert_eq!(level_to_db(255), 6);
}

#[test]
fn level_to_db_never_falls() {
    for p in 0..255u8 {
        assert!(level_to_db(p) <= level_to_db(p + 1));
    }
}

#[test]
fn db_to_level_values() {
    assert_eq!(db_to_level(0), 0);
    assert_eq!(db_to_level(1), 12);
    assert_eq!(db_to_level(2), 26);
    assert_eq!(db_to_level(3), 41);
    assert_eq!(db_to_level(4), 58);
    assert_eq!(db_to_level(5), 78);
    assert_eq!(db_to_level(6), 100);
    assert_eq!(db_to_level(255), 100);
}

#[test]
fn db_roundtrip_never_overshoots() {
    for p in 0..=100u8 {
        assert!(db_to_level(level_to_db(p)) <= p);
    }
}

#[test]
fn sidetone_feature_raw_level() {
    let r = encode_sidetone_feature(9);
    assert_eq!(r.len(), 63);
    let p = r.payload();
    assert_eq!(&p[..11], &[0x0B, 0x00, 0xFF, 0x04, 0x0E, 0x01, 0x05, 0x01, 0x04, 0x00, 9]);
    assert!(p[11..].iter().all(|&b| b == 0));
}

#[test]
fn brightness_twenty_percent() {
    let r = encode_set_brightness(LedZone::Status, 20);
    let p = r.payload();
    assert_eq!(p[0], 2);
    assert_eq!(&p[1..5], &[0x0B, 51, 0x0A, 51]);
}

#[test]
fn brightness_truncates_like_the_float_formula() {
    for level in 0..=255u8 {
        let r = encode_set_brightness(LedZone::MicMute, level);
        let clamped = level.min(100);
        assert_eq!(r.payload()[2], (f64::from(clamped) / 100.0 * 255.0) as u8);
    }
}

#[test]
fn decode_state_clamps_battery_and_reads_unknown_link_as_invalid() {
    let r = Report::from_input(&[0x64, 0x02, 0x7F, 0x0A, 0x06]).unwrap();
    let s = decode_state(&r).unwrap();
    assert_eq!(s.buttons, 2);
    assert_eq!(s.battery_percent, 100);
    assert!(s.mic_boom_up);
    assert_eq!(s.link_state, LinkState::Invalid);
    assert_eq!(s.battery_state, BatteryState::Error);
}

#[test]
fn decode_state_errors() {
    let r = Report::from_input(&[0x64, 0, 0, 0, 0x07]).unwrap();
    assert_eq!(
        decode_state(&r).unwrap_err(),
        DecodeError::InvalidValue { field: "battery_state", value: 7 }
    );
    let r = Report::from_input(&[0x65, 0, 0, 0, 0]).unwrap();
    assert_eq!(
        decode_state(&r).unwrap_err(),
        DecodeError::WrongReportId { expected: 0x64, actual: 0x65 }
    );
    let r = Report::from_input(&[0x64, 0, 0]).unwrap();
    assert_eq!(decode_state(&r).unwrap_err(), DecodeError::TooShort { need: 4, got: 2 });
}

#[test]
fn decode_device_mode_errors() {
    let r = Report::from_input(&[0x65, 0x02, 0x00]).unwrap();
    assert_eq!(
        decode_device_mode(&r).unwrap_err(),
        DecodeError::InvalidValue { field: "operating_mode", value: 2 }
    );
    let r = Report::from_input(&[0x65, 0x01]).unwrap();
    assert_eq!(decode_device_mode(&r).unwrap_err(), DecodeError::TooShort { need: 2, got: 1 });
    let r = Report::from_input(&[0x65, 0x01, 0xFE]).unwrap();
    assert!(!decode_device_mode(&r).unwrap().media_events_disabled);
}

#[test]
fn enum_byte_roundtrips() {
    for b in 0..=255u8 {
        if let Some(r) = ReportId::from_byte(b) {
            assert_eq!(r.to_byte(), b);
        }
        if let Some(v) = ValueId::from_byte(b) {
            assert_eq!(v.to_byte(), b);
        }
        if let Some(m) = OperatingMode::from_byte(b) {
            assert_eq!(m.to_byte(), b);
        }
        if let Some(s) = BatteryState::from_bits(b) {
            assert_eq!(s.to_bits(), b & 7);
        }
        if let Some(l) = LinkState::from_nibble(b) {
            assert_eq!(l.to_nibble(), b & 0x0F);
        }
    }
    assert_eq!(BatteryState::from_bits(0x0F), None);
    assert_eq!(LinkState::from_nibble(0x1A), None);
    assert_eq!(LinkState::from_nibble(0x1B), Some(LinkState::ActivePair));
    assert!(LinkState::ActiveSearch.is_connected());
    assert!(!LinkState::Standby.is_connected());
    assert_eq!(LedZone::from_id(LedZone::Status.id()), Some(LedZone::Status));
}

#[test]
fn level_to_db_matches_the_logarithm() {
    for p in 0..=255u8 {
        let level = f64::from(p.min(100));
        let db = 20.0 * (level / 100.0 + 1.0).log10();
        assert_eq!(level_to_db(p), db as u8, "level {p}");
    }
}

#[test]
fn db_to_level_matches_the_power() {
    for db in 0..=255u8 {
        let level = 100.0 * (10.0_f64.powf(f64::from(db) / 20.0) - 1.0);
        assert_eq!(db_to_level(db), (level.round() as u8).min(100), "db {db}");
    }
}
