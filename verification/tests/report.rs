use corsair_headset::devices::{catalog, lookup_by_pid, ProtocolFamily};
use corsair_headset::error::{DecodeError, ProtocolError};
use corsair_headset::report::{Report, MAX_REPORT_SIZE};
use corsair_headset::types::{DeviceId, ProductId, VendorId, CORSAIR_VID};

#[test]
fn wire_bytes_example() {
    let report = Report::with_payload(0xC9, &[0x64]).unwrap();
    assert_eq!(report.wire_bytes(), vec![0xC9, 0x64]);
}

#[test]
fn with_payload_rejects_oversized() {
    assert!(Report::with_payload(0x01, &[0u8; MAX_REPORT_SIZE]).is_some());
    assert!(Report::with_payload(0x01, &[0u8; MAX_REPORT_SIZE + 1]).is_none());
}

#[test]
fn from_input_rejects_empty_and_oversized() {
    assert!(Report::from_input(&[]).is_none());
    assert!(Report::from_input(&[0u8; 65]).is_some());
    assert!(Report::from_input(&[0u8; 66]).is_none());
}

#[test]
fn input_then_wire_gives_the_input_back() {
    let data = [0x66u8, 3, 10, 1, 5];
    let r = Report::from_input(&data).unwrap();
    assert_eq!(r.id(), 0x66);
    assert_eq!(r.len(), 4);
    assert_eq!(r.wire_bytes(), data.to_vec());
    assert_eq!(r.payload().len(), 64);
    assert_eq!(r.payload()[4], 0);
}

#[test]
fn wire_then_input_gives_the_report_back() {
    let r = Report::with_payload(0xCA, &[5, 1]).unwrap();
    let back = Report::from_input(&r.wire_bytes()).unwrap();
    assert_eq!(back.id(), r.id());
    assert_eq!(back.len(), r.len());
    assert_eq!(back.as_bytes(), r.as_bytes());
}

#[test]
fn new_report_is_empty() {
    let r = Report::new(0xCC);
    assert!(r.is_empty());
    assert_eq!(r.len(), 0);
    assert_eq!(r.wire_bytes(), vec![0xCC]);
}

#[test]
fn payload_mut_writes_buffer() {
    let mut r = Report::with_payload(0x10, &[1, 2]).unwrap();
    r.payload_mut()[1] = 9;
    assert_eq!(r.wire_bytes(), vec![0x10, 1, 9]);
    assert_eq!(r.len(), 2);
}

#[test]
fn report_debug_text() {
    let r = Report::with_payload(0xC9, &[0x64]).unwrap();
    assert_eq!(r.debug_text(), "Report { id: 0xC9, len: 1, [64] }");
    let r = Report::new(0x01);
    assert_eq!(r.debug_text(), "Report { id: 0x01, len: 0, [00 00 00 00] }");
    let r = Report::with_payload(0xFF, &[0xAB; 20]).unwrap();
    assert_eq!(
        r.debug_text(),
        "Report { id: 0xFF, len: 20, [AB AB AB AB AB AB AB AB AB AB AB AB AB AB AB AB ...] }"
    );
}

#[test]
fn protocol_error_codes() {
    assert_eq!(ProtocolError::from_code(0x01), ProtocolError::Unknown);
    assert_eq!(ProtocolError::from_code(0x02), ProtocolError::InvalidArgument);
    assert_eq!(ProtocolError::from_code(0x03), ProtocolError::OutOfRange);
    assert_eq!(ProtocolError::from_code(0x04), ProtocolError::HardwareError);
    assert_eq!(ProtocolError::from_code(0x08), ProtocolError::Busy);
    assert_eq!(ProtocolError::from_code(0x09), ProtocolError::Unsupported);
    assert_eq!(ProtocolError::from_code(0x05), ProtocolError::Other(0x05));
}

#[test]
fn error_texts() {
    assert_eq!(ProtocolError::Busy.to_string(), "device busy");
    assert_eq!(ProtocolError::Other(0x7F).to_string(), "error code 0x7F");
    assert_eq!(
        DecodeError::TooShort { need: 4, got: 2 }.to_string(),
        "report too short: need 4 bytes, got 2"
    );
    assert_eq!(
        DecodeError::WrongReportId { expected: 0x64, actual: 0x5 }.to_string(),
        "wrong report ID: expected 0x64, got 0x05"
    );
    assert_eq!(
        DecodeError::DeviceError(ProtocolError::OutOfRange).to_string(),
        "device error: out of range"
    );
    assert_eq!(
        DecodeError::InvalidValue { field: "battery_state", value: 7 }.to_string(),
        "invalid battery_state value: 0x07"
    );
}

#[test]
fn usb_id_texts() {
    assert_eq!(VendorId(0x1B1C).to_string(), "0x1B1C");
    assert_eq!(ProductId(0xA51).to_string(), "0x0A51");
    assert_eq!(DeviceId::corsair(0x0A51).to_string(), "0x1B1C:0x0A51");
    let d = DeviceId::new(0x170D, 1);
    assert_eq!(d.vid, VendorId(0x170D));
    assert_eq!(d.pid, ProductId(1));
    assert_eq!(DeviceId::corsair(7).vid.0, CORSAIR_VID);
}

#[test]
fn catalog_lookup() {
    let d = lookup_by_pid(ProductId(0x0A51)).unwrap();
    assert_eq!(d.name, "VOID RGB Elite Wireless (Carbon)");
    assert_eq!(d.paired_pid, Some(ProductId(0x0A50)));
    assert_eq!(d.protocol, ProtocolFamily::Legacy);
    let d = lookup_by_pid(ProductId(0x0A6B)).unwrap();
    assert_eq!(d.name, "HS80 RGB Wireless");
    assert_eq!(d.paired_pid, Some(ProductId(0x0A69)));
    assert_eq!(d.protocol, ProtocolFamily::Bragi);
    assert!(lookup_by_pid(ProductId(0x0A69)).is_none());
    assert!(lookup_by_pid(ProductId(0x0A50)).is_none());
    for d in catalog() {
        assert_eq!(lookup_by_pid(d.id.pid).unwrap().name, d.name);
    }
    assert_eq!(catalog().len(), 5);
}
