use airpods_core::aacp::{
    AACPEvent, BatteryComponent, BatteryInfo, BatteryStatus, ControlCommandIdentifiers,
    EarDetectionStatus, ProximityKeyType,
};
use airpods_core::apple_models::needs_init_ext;
use airpods_core::codec::{decode_message, encode_message, AacpMessage};
use airpods_core::session::{AirPodsDevice, HandshakeMachine, PeerState, RequestGate};

#[test]
fn handshake_sends_in_order_without_init_ext() {
    let mut hs = HandshakeMachine::new(0x200e);
    assert!(matches!(hs.next_packet(), Some(AacpMessage::Handshake)));
    assert!(matches!(hs.next_packet(), Some(AacpMessage::SetFeatureFlags)));
    assert!(matches!(hs.next_packet(), Some(AacpMessage::RequestNotifications)));
    match hs.next_packet() {
        Some(AacpMessage::ProximityKeysRequest { key_types }) => {
            assert_eq!(key_types, vec![ProximityKeyType::Irk, ProximityKeyType::EncKey]);
        }
        other => panic!("wrong packet: {:?}", other),
    }
    assert!(hs.next_packet().is_none());
}

#[test]
fn handshake_inserts_init_ext_for_flagged_models() {
    for pid in [0x201b, 0x2014, 0x2027, 0x2024] {
        assert!(needs_init_ext(pid));
        let mut hs = HandshakeMachine::new(pid);
        assert!(matches!(hs.next_packet(), Some(AacpMessage::Handshake)));
        assert!(matches!(hs.next_packet(), Some(AacpMessage::SetFeatureFlags)));
        assert!(matches!(hs.next_packet(), Some(AacpMessage::RequestNotifications)));
        assert!(matches!(hs.next_packet(), Some(AacpMessage::InitExt)));
        assert!(matches!(hs.next_packet(), Some(AacpMessage::ProximityKeysRequest { .. })));
        assert!(hs.next_packet().is_none());
    }
    for pid in [0x2002u16, 0x200e, 0x200f, 0x2013, 0x2019, 0x200a, 0x0000] {
        assert!(!needs_init_ext(pid));
    }
}

#[test]
fn telemetry_burst_during_handshake_still_delivers_battery() {
    // The peer bursts telemetry right after connect: the first packet out
    // is still the handshake, and the burst decodes to battery readings.
    let mut hs = HandshakeMachine::new(0x2014);
    let first = hs.next_packet().unwrap();
    assert!(matches!(first, AacpMessage::Handshake));

    let burst = encode_message(&AacpMessage::BatteryState {
        items: vec![BatteryInfo {
            component: BatteryComponent::Left,
            level: 77,
            status: BatteryStatus::NotCharging,
        }],
    });
    let msg = decode_message(&burst).unwrap();
    let mut peer = PeerState::new();
    match peer.apply_message(&msg) {
        Some(AACPEvent::BatteryInfo(items)) => {
            assert_eq!(items.len(), 1);
            assert_eq!(items[0].level, 77);
        }
        other => panic!("wrong event: {:?}", other),
    }
    // The next handshake packet follows only after the wakeup.
    assert!(matches!(hs.next_packet(), Some(AacpMessage::SetFeatureFlags)));
}

#[test]
fn request_gate_allows_one_outstanding() {
    let mut gate = RequestGate::new();
    assert!(gate.can_send());
    gate.begin_send();
    assert!(!gate.can_send());
    gate.note_response();
    assert!(gate.can_send());
    gate.begin_send();
    assert!(!gate.can_send());
}

#[test]
fn peer_state_tracks_ear_and_ownership() {
    let mut peer = PeerState::new();
    let msg = AacpMessage::EarDetectionState {
        left: EarDetectionStatus::InEar,
        right: EarDetectionStatus::OutOfEar,
    };
    match peer.apply_message(&msg) {
        Some(AACPEvent::EarDetection { old_left, old_right, new_left, new_right }) => {
            assert_eq!(old_left, EarDetectionStatus::OutOfEar);
            assert_eq!(old_right, EarDetectionStatus::OutOfEar);
            assert_eq!(new_left, EarDetectionStatus::InEar);
            assert_eq!(new_right, EarDetectionStatus::OutOfEar);
        }
        other => panic!("wrong event: {:?}", other),
    }
    assert_eq!(peer.ear_left, EarDetectionStatus::InEar);

    let owns = AacpMessage::ControlCommand {
        identifier: ControlCommandIdentifiers::OwnsConnection,
        value: vec![1],
    };
    assert!(matches!(peer.apply_message(&owns), Some(AACPEvent::ControlCommand(_))));
    assert!(peer.owns_connection);
    let drops = AacpMessage::ControlCommand {
        identifier: ControlCommandIdentifiers::OwnsConnection,
        value: vec![0],
    };
    peer.apply_message(&drops);
    assert!(!peer.owns_connection);

    // Outbound kinds raise nothing.
    assert!(peer.apply_message(&AacpMessage::Handshake).is_none());
}

#[test]
fn fresh_device_session_starts_clean() {
    let mut dev = AirPodsDevice::new(0x2014);
    assert!(matches!(dev.handshake.next_packet(), Some(AacpMessage::Handshake)));
    assert!(dev.gate.can_send());
    assert_eq!(dev.peer_state.ear_left, EarDetectionStatus::OutOfEar);
    assert!(dev.peer_state.battery.is_empty());
    assert!(!dev.coordinator.is_playing);
}
