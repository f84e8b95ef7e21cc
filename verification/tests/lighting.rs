use corsair_headset::legacy::lighting::{
    encode_clear_pwm, encode_set_brightness, encode_set_color, encode_set_color_cma,
    encode_set_logarithmic_pwm, encode_start_ti_engines, encode_stop_ti_engines, LedZone,
};

#[test]
fn led_zone_from_id_roundtrip() {
    assert_eq!(LedZone::from_id(0x213), Some(LedZone::LeftLogo));
    assert_eq!(LedZone::from_id(0x214), Some(LedZone::RightLogo));
    assert_eq!(LedZone::from_id(0x215), Some(LedZone::Status));
    assert_eq!(LedZone::from_id(0x216), Some(LedZone::MicMute));
    assert_eq!(LedZone::from_id(0x999), None);
}

#[test]
fn zone_mapping_left_logo_has_all_channels() {
    let m = LedZone::LeftLogo.ti_mapping();
    assert_eq!(m.pwm_red, Some(0x1C));
    assert_eq!(m.pwm_green, Some(0x16));
    assert_eq!(m.pwm_blue, Some(0x17));
    assert_eq!(m.bright_red, Some(0x0C));
    assert_eq!(m.bright_green, Some(0x06));
    assert_eq!(m.bright_blue, Some(0x07));
}

#[test]
fn zone_mapping_status_has_rg_only() {
    let m = LedZone::Status.ti_mapping();
    assert!(m.pwm_red.is_some());
    assert!(m.pwm_green.is_some());
    assert!(m.pwm_blue.is_none());
    assert!(m.bright_blue.is_none());
}

#[test]
fn zone_mapping_mic_mute_has_red_only() {
    let m = LedZone::MicMute.ti_mapping();
    assert!(m.pwm_red.is_some());
    assert!(m.pwm_green.is_none());
    assert!(m.pwm_blue.is_none());
}

#[test]
fn zone_mapping_channels_iterator() {
    let m = LedZone::LeftLogo.ti_mapping();
    let channels: Vec<_> = m.channels();
    assert_eq!(channels.len(), 3);
    assert_eq!(channels[0], (0x1C, 0x0C)); // red
    assert_eq!(channels[1], (0x16, 0x06)); // green
    assert_eq!(channels[2], (0x17, 0x07)); // blue

    let m = LedZone::MicMute.ti_mapping();
    let channels: Vec<_> = m.channels();
    assert_eq!(channels.len(), 1);
    assert_eq!(channels[0], (0x1E, 0x0E)); // red only
}

#[test]
fn start_ti_engines_report() {
    let report = encode_start_ti_engines();
    assert_eq!(report.id(), 0xCB);
    let p = report.payload();
    assert_eq!(p[0], 1);    // count = 1 pair
    assert_eq!(p[1], 0x01); // TI enable register
    assert_eq!(p[2], 0x2A); // engine start value
}

#[test]
fn stop_ti_engines_report() {
    let report = encode_stop_ti_engines();
    assert_eq!(report.id(), 0xCB);
    let p = report.payload();
    assert_eq!(p[0], 1);    // count = 1 pair
    assert_eq!(p[1], 0x01); // TI enable register
    assert_eq!(p[2], 0x00); // engine stop value
}

#[test]
fn set_brightness_zero() {
    let report = encode_set_brightness(LedZone::LeftLogo, 0);
    let p = report.payload();
    assert_eq!(p[0], 3); // LeftLogo has 3 brightness registers
    // All brightness values should be 0
    assert_eq!(p[2], 0); // value for first register
    assert_eq!(p[4], 0); // value for second register
    assert_eq!(p[6], 0); // value for third register
}

#[test]
fn set_brightness_full() {
    let report = encode_set_brightness(LedZone::LeftLogo, 100);
    let p = report.payload();
    assert_eq!(p[0], 3);
    assert_eq!(p[2], 255); // (100/100 * 255) = 255
    assert_eq!(p[4], 255);
    assert_eq!(p[6], 255);
}

#[test]
fn set_brightness_half() {
    let report = encode_set_brightness(LedZone::RightLogo, 50);
    let p = report.payload();
    assert_eq!(p[0], 3);
    // (50/100 * 255) = 127.5, truncated to 127
    assert_eq!(p[2], 127);
}

#[test]
fn set_brightness_clamps_at_100() {
    let report = encode_set_brightness(LedZone::MicMute, 200);
    let p = report.payload();
    assert_eq!(p[0], 1); // MicMute has 1 brightness register
    assert_eq!(p[2], 255); // clamped to 100 -> 255
}

#[test]
fn set_color_left_logo_rgb() {
    let report = encode_set_color(LedZone::LeftLogo, 0xFF, 0x80, 0x40);
    assert_eq!(report.id(), 0xCB);
    let p = report.payload();
    assert_eq!(p[0], 3);    // 3 color channels
    assert_eq!(p[1], 0x1C); // red PWM register
    assert_eq!(p[2], 0xFF); // red value
    assert_eq!(p[3], 0x16); // green PWM register
    assert_eq!(p[4], 0x80); // green value
    assert_eq!(p[5], 0x17); // blue PWM register
    assert_eq!(p[6], 0x40); // blue value
}

#[test]
fn set_color_status_rg_only() {
    let report = encode_set_color(LedZone::Status, 0xAA, 0xBB, 0xCC);
    let p = report.payload();
    assert_eq!(p[0], 2);    // Status only has R and G
    assert_eq!(p[1], 0x1B); // red PWM register
    assert_eq!(p[2], 0xAA);
    assert_eq!(p[3], 0x1A); // green PWM register
    assert_eq!(p[4], 0xBB);
    // Blue is ignored for Status zone
}

#[test]
fn set_color_mic_mute_red_only() {
    let report = encode_set_color(LedZone::MicMute, 0xFF, 0x00, 0x00);
    let p = report.payload();
    assert_eq!(p[0], 1);    // MicMute only has R
    assert_eq!(p[1], 0x1E); // red PWM register
    assert_eq!(p[2], 0xFF);
}

#[test]
fn set_color_cma_rgb() {
    let report = encode_set_color_cma(0x11, 0x22, 0x33);
    assert_eq!(report.id(), 0xCB);
    let p = report.payload();
    assert_eq!(p[0], 3);    // 3 pairs
    assert_eq!(p[1], 0x1C); // CMA red register
    assert_eq!(p[2], 0x11);
    assert_eq!(p[3], 0x16); // CMA green register
    assert_eq!(p[4], 0x22);
    assert_eq!(p[5], 0x17); // CMA blue register
    assert_eq!(p[6], 0x33);
}

#[test]
fn set_logarithmic_pwm_enabled() {
    let reports = encode_set_logarithmic_pwm(true);
    assert_eq!(reports.len(), 2);

    // First report: 8 main-zone PWM registers set to 0x20
    let p = reports[0].payload();
    assert_eq!(p[0], 8); // 8 pairs
    for i in 0..8 {
        assert_eq!(p[2 + i * 2], 0x20, "pair {i} value should be 0x20");
    }

    // Second report: MicMute PWM register
    let p = reports[1].payload();
    assert_eq!(p[0], 1);
    assert_eq!(p[1], 0x1E); // MicMute PWM register
    assert_eq!(p[2], 0x20);
}

#[test]
fn set_logarithmic_pwm_disabled() {
    let reports = encode_set_logarithmic_pwm(false);
    assert_eq!(reports.len(), 2);

    let p = reports[0].payload();
    assert_eq!(p[0], 8);
    for i in 0..8 {
        assert_eq!(p[2 + i * 2], 0x00, "pair {i} value should be 0x00");
    }
}

#[test]
fn clear_pwm_reports() {
    let reports = encode_clear_pwm();
    assert_eq!(reports.len(), 4);

    // All reports should use LED_REPORT_ID
    for r in &reports {
        assert_eq!(r.id(), 0xCB);
    }

    // First: 8 main-zone PWM registers zeroed
    assert_eq!(reports[0].payload()[0], 8);
    // Second: MicMute PWM zeroed
    assert_eq!(reports[1].payload()[0], 1);
    assert_eq!(reports[1].payload()[1], 0x1E);
    // Third: 8 main-zone brightness registers zeroed
    assert_eq!(reports[2].payload()[0], 8);
    // Fourth: MicMute brightness zeroed
    assert_eq!(reports[3].payload()[0], 1);
    assert_eq!(reports[3].payload()[1], 0x0E);

    // Verify all values are zero
    for report in &reports {
        let p = report.payload();
        let count = p[0] as usize;
        for i in 0..count {
            assert_eq!(p[2 + i * 2], 0x00, "all values should be zeroed");
        }
    }
}

#[test]
fn ti_report_payload_is_19_bytes() {
    // The TI report payload should always be exactly 19 bytes
    let report = encode_start_ti_engines();
    // Payload length should be 19
    assert_eq!(report.len(), 19);
}

#[test]
fn cma_report_payload_is_7_bytes() {
    let report = encode_set_color_cma(0, 0, 0);
    assert_eq!(report.len(), 7);
}

#[test]
fn right_logo_ti_mapping() {
    let m = LedZone::RightLogo.ti_mapping();
    assert_eq!(m.pwm_red, Some(0x1D));
    assert_eq!(m.pwm_green, Some(0x18));
    assert_eq!(m.pwm_blue, Some(0x19));
    assert_eq!(m.bright_red, Some(0x0D));
    assert_eq!(m.bright_green, Some(0x08));
    assert_eq!(m.bright_blue, Some(0x09));
}
