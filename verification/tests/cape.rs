use corsair_headset::cxaudio::cape::{encode_get_firmware_version, encode_read_dram, CapeCommand};
use corsair_headset::cxaudio::types::ChipType;
use corsair_headset::error::DecodeError;
use corsair_headset::report::Report;

#[test]
fn encode_firmware_version_cmd() {
    let report = encode_get_firmware_version();
    assert_eq!(report.id(), 0x01);
    let p = report.payload();
    // header: num_words=4, command_id=6
    let header = u32::from_le_bytes([p[0], p[1], p[2], p[3]]);
    assert_eq!(header & 0xFFFF, 4); // num_words
    assert_eq!((header >> 16) & 0x7FFF, 6); // command_id
    // module_id
    let module = u32::from_le_bytes([p[4], p[5], p[6], p[7]]);
    assert_eq!(module, 0x01B32D23);
}

#[test]
fn decode_cape_response() {
    let mut data = [0u8; 64];
    // Build a response header: direction=1, command_id=6, num_words=4
    let header: u32 = 0x8000_0000 | (6 << 16) | 4;
    data[0..4].copy_from_slice(&header.to_le_bytes());
    data[4..8].copy_from_slice(&0x01B32D23u32.to_le_bytes());
    // Version data at offset 8
    data[8] = 0x03; // major
    data[12] = 0x0A; // minor

    let report = Report::with_payload(0x01, &data[..60]).unwrap();
    let resp = CapeCommand::decode_response(&report).unwrap();
    assert_eq!(resp.command_id, 6);
    assert_eq!(resp.num_words, 4);
    assert_eq!(resp.data[0], 0x03);
    assert_eq!(resp.data[4], 0x0A);
}

#[test]
fn cape_request_is_rejected_as_response() {
    // A request has the direction bit clear.
    let report = encode_get_firmware_version();
    assert_eq!(
        CapeCommand::decode_response(&report).unwrap_err(),
        DecodeError::InvalidValue { field: "cape_direction", value: 0 }
    );
}

#[test]
fn cape_decode_wrong_id_and_short() {
    let r = Report::with_payload(0x02, &[0u8; 60]).unwrap();
    assert_eq!(
        CapeCommand::decode_response(&r).unwrap_err(),
        DecodeError::WrongReportId { expected: 0x01, actual: 0x02 }
    );
    let r = Report::with_payload(0x01, &[0u8; 59]).unwrap();
    assert_eq!(
        CapeCommand::decode_response(&r).unwrap_err(),
        DecodeError::TooShort { need: 60, got: 59 }
    );
}

#[test]
fn cape_request_header_masks_command_id() {
    // A command ID with its top bit set keeps only its low 15 bits, so the
    // request never carries the response direction bit.
    let mut cmd = CapeCommand::new(0x8006, 0x01B32D23, 2);
    cmd.data[0] = 0xAA;
    cmd.data[7] = 0xBB;
    cmd.data[8] = 0xCC; // beyond 2 words: not sent
    assert_eq!(cmd.request_header(), 0x0006_0002);
    let report = cmd.encode();
    assert_eq!(report.len(), 60);
    let p = report.payload();
    assert_eq!(&p[0..4], &[0x02, 0x00, 0x06, 0x00]);
    assert_eq!(&p[4..8], &0x01B32D23u32.to_le_bytes());
    assert_eq!(p[8], 0xAA);
    assert_eq!(p[15], 0xBB);
    assert_eq!(p[16], 0x00);
    assert_eq!(
        CapeCommand::decode_response(&report).unwrap_err(),
        DecodeError::InvalidValue { field: "cape_direction", value: 0 }
    );
    assert_eq!(CapeCommand::new(0x7FFF, 0, 0xFFFF).request_header(), 0x7FFF_FFFF);
}

#[test]
fn cape_read_dram_layout() {
    let report = encode_read_dram(2, 0x1234_5678);
    let p = report.payload();
    assert_eq!(&p[8..16], &[2, 0, 0, 0, 0x78, 0x56, 0x34, 0x12]);
    assert_eq!(p[16], 0);
}

#[test]
fn chip_type_tables() {
    assert_eq!(ChipType::Cx20562.output_report_id(), 0x08);
    assert_eq!(ChipType::Cx2070x.input_report_id(), 0x05);
    assert_eq!(ChipType::Cx2076x.output_report_size(), 33);
    assert_eq!(ChipType::Cx20805.input_report_size(), 62);
    assert_eq!(ChipType::Cx20805.to_byte(), 6);
}
