use airpods_core::att::{
    build_enable_notifications, build_read_request, build_write_request, classify_inbound,
    ATTCCCDHandles, ATTHandles, AttInbound,
};
use airpods_core::nothing::{parse_nothing_frame, serial_request, version_request, NothingFrame};

#[test]
fn att_handles_have_their_wire_values() {
    assert_eq!(ATTHandles::AirPodsTransparency.value(), 0x18);
    assert_eq!(ATTHandles::AirPodsLoudSoundReduction.value(), 0x1B);
    assert_eq!(ATTHandles::AirPodsHearingAid.value(), 0x2A);
    assert_eq!(ATTHandles::NothingEverything.value(), 0x8002);
    assert_eq!(ATTHandles::NothingEverythingRead.value(), 0x8005);
    // Each CCCD sits one past its attribute handle.
    assert_eq!(ATTCCCDHandles::Transparency.value(), 0x19);
    assert_eq!(ATTCCCDHandles::LoudSoundReduction.value(), 0x1C);
    assert_eq!(ATTCCCDHandles::HearingAid.value(), 0x2B);
    assert_eq!(
        ATTCCCDHandles::from_handle(ATTHandles::AirPodsTransparency),
        Some(ATTCCCDHandles::Transparency)
    );
    assert_eq!(ATTCCCDHandles::from_handle(ATTHandles::NothingEverything), None);
    assert_eq!(ATTCCCDHandles::from_handle(ATTHandles::NothingEverythingRead), None);
}

#[test]
fn att_pdus_have_wire_layout() {
    assert_eq!(build_read_request(0x8005), vec![0x0A, 0x05, 0x80]);
    assert_eq!(build_write_request(0x18, &[1, 2, 3]), vec![0x12, 0x18, 0x00, 1, 2, 3]);
    // Enabling notifications writes 0x0100 to handle + 1.
    assert_eq!(
        build_enable_notifications(ATTCCCDHandles::Transparency),
        vec![0x12, 0x19, 0x00, 0x01, 0x00]
    );
}

#[test]
fn inbound_packets_classify_by_opcode() {
    match classify_inbound(&[0x1B, 0x05, 0x80, 9, 9, 9]) {
        Some(AttInbound::Notification { handle, value }) => {
            assert_eq!(handle, 0x8005);
            assert_eq!(value, vec![9, 9, 9]);
        }
        other => panic!("wrong classification: {:?}", other),
    }
    assert!(matches!(classify_inbound(&[0x13]), Some(AttInbound::WriteResponse)));
    match classify_inbound(&[0x0B, 1, 2]) {
        Some(AttInbound::Response { payload }) => assert_eq!(payload, vec![1, 2]),
        other => panic!("wrong classification: {:?}", other),
    }
    // Empty and truncated packets mean nothing.
    assert!(classify_inbound(&[]).is_none());
    assert!(classify_inbound(&[0x1B, 0x05]).is_none());
}

#[test]
fn nothing_requests_have_wire_layout() {
    assert_eq!(
        version_request(),
        vec![0x55, 0x20, 0x01, 0x42, 0xC0, 0, 0, 0, 0, 0]
    );
    assert_eq!(
        serial_request(),
        vec![0x55, 0x20, 0x01, 0x06, 0xC0, 0, 0, 0x13, 0, 0]
    );
}

#[test]
fn nothing_version_frame_parses() {
    let mut frame = vec![0x55, 0x20, 0x01, 0x42, 0x40, 0, 0, 0];
    frame.extend_from_slice(b"1.0.1.105");
    match parse_nothing_frame(&frame) {
        NothingFrame::FirmwareVersion { version } => {
            assert_eq!(version, b"1.0.1.105".to_vec());
        }
        other => panic!("wrong parse: {:?}", other),
    }
    // A version frame cut before its header yields nothing.
    assert!(matches!(
        parse_nothing_frame(&[0x55, 0x20, 0x01, 0x42, 0x40, 0]),
        NothingFrame::Other
    ));
}

#[test]
fn nothing_serial_frame_parses() {
    let mut frame = vec![0x55, 0x20, 0x01, 0x06, 0x40, 0, 0, 0];
    frame.extend_from_slice(b"SH1A2B3C\n junk");
    match parse_nothing_frame(&frame) {
        NothingFrame::SerialNumber { serial } => {
            assert_eq!(serial, b"SH1A2B3C".to_vec());
        }
        other => panic!("wrong parse: {:?}", other),
    }
    // The serial must start with "SH".
    let mut bad = vec![0x55, 0x20, 0x01, 0x06, 0x40, 0, 0, 0];
    bad.extend_from_slice(b"SX1A2B3C\n");
    assert!(matches!(parse_nothing_frame(&bad), NothingFrame::Other));
    // Unrelated frames are ignored.
    assert!(matches!(parse_nothing_frame(b"hello"), NothingFrame::Other));
}
