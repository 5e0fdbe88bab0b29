use airpods_core::aacp::{
    BatteryComponent, BatteryInfo, BatteryStatus, ConnectedDevice, ControlCommandIdentifiers,
    EarDetectionStatus, ProximityKeyType, StemPressBud, StemPressType,
};
use airpods_core::codec::{decode_message, encode_message, AacpMessage};

fn round_trip(m: &AacpMessage) -> AacpMessage {
    let bytes = encode_message(m);
    decode_message(&bytes).expect("frame must decode")
}

#[test]
fn frame_layout_is_header_type_payload() {
    let m = AacpMessage::ControlCommand {
        identifier: ControlCommandIdentifiers::OwnsConnection,
        value: vec![0x01],
    };
    let bytes = encode_message(&m);
    assert_eq!(&bytes[..4], &[0x04, 0x00, 0x04, 0x00]);
    assert_eq!(&bytes[4..6], &[6, 0]);
    assert_eq!(&bytes[6..], &[1, 1]);
}

#[test]
fn handshake_messages_round_trip() {
    assert!(matches!(round_trip(&AacpMessage::Handshake), AacpMessage::Handshake));
    assert!(matches!(round_trip(&AacpMessage::SetFeatureFlags), AacpMessage::SetFeatureFlags));
    assert!(matches!(
        round_trip(&AacpMessage::RequestNotifications),
        AacpMessage::RequestNotifications
    ));
    assert!(matches!(round_trip(&AacpMessage::InitExt), AacpMessage::InitExt));
    let m = AacpMessage::ProximityKeysRequest {
        key_types: vec![ProximityKeyType::Irk, ProximityKeyType::EncKey],
    };
    match round_trip(&m) {
        AacpMessage::ProximityKeysRequest { key_types } => {
            assert_eq!(key_types, vec![ProximityKeyType::Irk, ProximityKeyType::EncKey]);
        }
        other => panic!("wrong decode: {:?}", other),
    }
}

#[test]
fn control_command_round_trip() {
    let m = AacpMessage::ControlCommand {
        identifier: ControlCommandIdentifiers::ChimeVolume,
        value: vec![0x42, 0x99],
    };
    match round_trip(&m) {
        AacpMessage::ControlCommand { identifier, value } => {
            assert_eq!(identifier, ControlCommandIdentifiers::ChimeVolume);
            assert_eq!(value, vec![0x42, 0x99]);
        }
        other => panic!("wrong decode: {:?}", other),
    }
}

#[test]
fn rename_round_trip() {
    let m = AacpMessage::Rename { name: b"My Buds".to_vec() };
    match round_trip(&m) {
        AacpMessage::Rename { name } => assert_eq!(name, b"My Buds".to_vec()),
        other => panic!("wrong decode: {:?}", other),
    }
}

#[test]
fn media_information_round_trip() {
    let local = [1, 2, 3, 4, 5, 6];
    let remote = [9, 8, 7, 6, 5, 4];
    let m = AacpMessage::MediaInformation { local, remote, playing: true };
    match round_trip(&m) {
        AacpMessage::MediaInformation { local: l, remote: r, playing } => {
            assert_eq!(l, local);
            assert_eq!(r, remote);
            assert!(playing);
        }
        other => panic!("wrong decode: {:?}", other),
    }
    for m in [
        AacpMessage::SmartRoutingShowUi { mac: remote },
        AacpMessage::HijackRequest { mac: remote },
        AacpMessage::MediaInformationNewDevice { local, new_device: remote },
        AacpMessage::AddTipiDevice { local, new_device: remote },
    ] {
        let bytes = encode_message(&m);
        assert!(decode_message(&bytes).is_some());
    }
}

#[test]
fn battery_state_round_trip() {
    let items = vec![
        BatteryInfo {
            component: BatteryComponent::Left,
            level: 80,
            status: BatteryStatus::Charging,
        },
        BatteryInfo {
            component: BatteryComponent::Case,
            level: 55,
            status: BatteryStatus::NotCharging,
        },
    ];
    let m = AacpMessage::BatteryState { items: items.clone() };
    match round_trip(&m) {
        AacpMessage::BatteryState { items: got } => assert_eq!(got, items),
        other => panic!("wrong decode: {:?}", other),
    }
}

#[test]
fn ear_detection_round_trip() {
    let m = AacpMessage::EarDetectionState {
        left: EarDetectionStatus::InEar,
        right: EarDetectionStatus::InCase,
    };
    match round_trip(&m) {
        AacpMessage::EarDetectionState { left, right } => {
            assert_eq!(left, EarDetectionStatus::InEar);
            assert_eq!(right, EarDetectionStatus::InCase);
        }
        other => panic!("wrong decode: {:?}", other),
    }
}

#[test]
fn connected_peers_round_trip() {
    let peers = vec![
        ConnectedDevice { mac: [1, 2, 3, 4, 5, 6], info1: 7, info2: 8 },
        ConnectedDevice { mac: [6, 5, 4, 3, 2, 1], info1: 0, info2: 0xFF },
    ];
    let m = AacpMessage::ConnectedPeers { peers: peers.clone() };
    match round_trip(&m) {
        AacpMessage::ConnectedPeers { peers: got } => assert_eq!(got, peers),
        other => panic!("wrong decode: {:?}", other),
    }
}

#[test]
fn stem_press_and_awareness_round_trip() {
    let m = AacpMessage::StemPress { kind: StemPressType::DoublePress, bud: StemPressBud::Right };
    match round_trip(&m) {
        AacpMessage::StemPress { kind, bud } => {
            assert_eq!(kind, StemPressType::DoublePress);
            assert_eq!(bud, StemPressBud::Right);
        }
        other => panic!("wrong decode: {:?}", other),
    }
    let m = AacpMessage::ConversationalAwarenessStatus { level: 3 };
    match round_trip(&m) {
        AacpMessage::ConversationalAwarenessStatus { level } => assert_eq!(level, 3),
        other => panic!("wrong decode: {:?}", other),
    }
    assert!(matches!(
        round_trip(&AacpMessage::OwnershipToFalseRequest),
        AacpMessage::OwnershipToFalseRequest
    ));
}

#[test]
fn device_info_round_trip() {
    let m = AacpMessage::DeviceInfoMessage {
        name: b"AirPods Pro".to_vec(),
        serial_number: b"SH123".to_vec(),
    };
    match round_trip(&m) {
        AacpMessage::DeviceInfoMessage { name, serial_number } => {
            assert_eq!(name, b"AirPods Pro".to_vec());
            assert_eq!(serial_number, b"SH123".to_vec());
        }
        other => panic!("wrong decode: {:?}", other),
    }
}

#[test]
fn malformed_frames_decode_to_nothing() {
    assert!(decode_message(&[]).is_none());
    assert!(decode_message(&[4, 0, 4, 0, 1]).is_none());
    assert!(decode_message(&[5, 0, 4, 0, 1, 0]).is_none());
    // Unknown message type.
    assert!(decode_message(&[4, 0, 4, 0, 0xEE, 0x01]).is_none());
    // Handshake with trailing bytes.
    assert!(decode_message(&[4, 0, 4, 0, 1, 0, 9]).is_none());
    // Media information with a short payload.
    assert!(decode_message(&[4, 0, 4, 0, 8, 0, 1, 2, 3]).is_none());
    // Battery list not in 3-byte groups.
    assert!(decode_message(&[4, 0, 4, 0, 13, 0, 1, 50]).is_none());
    // Battery entry with an unknown component byte.
    assert!(decode_message(&[4, 0, 4, 0, 13, 0, 9, 50, 1]).is_none());
    // Control command with an unknown identifier byte.
    assert!(decode_message(&[4, 0, 4, 0, 6, 0, 0xEE]).is_none());
}
