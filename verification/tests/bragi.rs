use corsair_headset::bragi::convert::{
    from_bragi_level, from_bragi_microphone_level, from_bragi_sidetone_level, to_bragi_level,
    to_bragi_microphone_level, to_bragi_sidetone_level,
};
use corsair_headset::bragi::types::{BatteryStatus, OperatingMode, WirelessMode};

#[test]
fn to_bragi_level_boundaries() {
    assert_eq!(to_bragi_level(0), 0);
    assert_eq!(to_bragi_level(50), 500);
    assert_eq!(to_bragi_level(100), 1000);
}

#[test]
fn from_bragi_level_boundaries() {
    assert_eq!(from_bragi_level(0), 0);
    assert_eq!(from_bragi_level(500), 50);
    assert_eq!(from_bragi_level(1000), 100);
}

#[test]
fn from_bragi_level_truncates() {
    assert_eq!(from_bragi_level(9), 0);
    assert_eq!(from_bragi_level(15), 1);
    assert_eq!(from_bragi_level(999), 99);
}

#[test]
fn roundtrip_generic() {
    for pct in 0..=100u8 {
        assert_eq!(from_bragi_level(to_bragi_level(pct)), pct);
    }
}

#[test]
fn sidetone_roundtrip() {
    for pct in 0..=100u8 {
        assert_eq!(from_bragi_sidetone_level(to_bragi_sidetone_level(pct)), pct);
    }
}

#[test]
fn sidetone_specific_values() {
    assert_eq!(to_bragi_sidetone_level(0), 0);
    assert_eq!(to_bragi_sidetone_level(75), 750);
    assert_eq!(from_bragi_sidetone_level(750), 75);
}

#[test]
fn microphone_roundtrip() {
    for pct in 0..=100u8 {
        assert_eq!(from_bragi_microphone_level(to_bragi_microphone_level(pct)), pct);
    }
}

#[test]
fn microphone_specific_values() {
    assert_eq!(to_bragi_microphone_level(0), 0);
    assert_eq!(to_bragi_microphone_level(100), 1000);
    assert_eq!(from_bragi_microphone_level(430), 43);
}

#[test]
fn battery_status_roundtrip() {
    assert_eq!(BatteryStatus::from_byte(1), Some(BatteryStatus::Discharging));
    assert_eq!(BatteryStatus::from_byte(2), Some(BatteryStatus::Charging));
    assert_eq!(BatteryStatus::from_byte(3), Some(BatteryStatus::FullyCharged));
    assert_eq!(BatteryStatus::from_byte(0), None);
    assert_eq!(BatteryStatus::from_byte(4), None);
}

#[test]
fn battery_status_is_on_power() {
    assert!(!BatteryStatus::Discharging.is_on_power());
    assert!(BatteryStatus::Charging.is_on_power());
    assert!(BatteryStatus::FullyCharged.is_on_power());
}

#[test]
fn operating_mode_roundtrip() {
    assert_eq!(OperatingMode::from_byte(0), Some(OperatingMode::Hardware));
    assert_eq!(OperatingMode::from_byte(1), Some(OperatingMode::Software));
    assert_eq!(OperatingMode::from_byte(2), None);
}

#[test]
fn wireless_mode_roundtrip() {
    assert_eq!(WirelessMode::from_byte(0), Some(WirelessMode::Slipstream));
    assert_eq!(WirelessMode::from_byte(1), Some(WirelessMode::Bluetooth));
    assert_eq!(WirelessMode::from_byte(2), Some(WirelessMode::Wired));
    assert_eq!(WirelessMode::from_byte(3), None);
}

// Beyond the percentage range: the quotient wraps as a byte.
#[test]
fn from_bragi_level_wraps_above_byte_range() {
    assert_eq!(from_bragi_level(2559), 255);
    assert_eq!(from_bragi_level(2560), 0);
    assert_eq!(from_bragi_level(65535), (6553u32 % 256) as u8);
}

#[test]
fn bragi_level_roundtrip_full_byte_range() {
    for pct in 0..=255u8 {
        assert_eq!(from_bragi_level(to_bragi_level(pct)), pct);
    }
}

#[test]
fn battery_status_to_byte_roundtrip() {
    for s in [BatteryStatus::Discharging, BatteryStatus::Charging, BatteryStatus::FullyCharged] {
        assert_eq!(BatteryStatus::from_byte(s.to_byte()), Some(s));
    }
}

#[test]
fn from_bragi_level_documented_truncation() {
    assert_eq!(from_bragi_level(1005), 100);
    assert_eq!(from_bragi_level(9), 0);
}
