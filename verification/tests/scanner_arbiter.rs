use aes::cipher::generic_array::GenericArray;
use aes::cipher::{BlockEncrypt, KeyInit};
use aes::Aes128;
use airpods_core::aacp::BatteryComponent;
use airpods_core::arbiter::ConnectArbiter;
use airpods_core::crypto::ah;
use airpods_core::scanner::{parse_advert, RpaClass, RpaRegistry};

const ENC_KEY: [u8; 16] = [9u8; 16];

/// Build an Apple advertisement of 27 bytes: 11 plain bytes, then a
/// 16-byte AES-encrypted tail holding the battery bytes.
fn advert(status: u8, conn_state: u8, left: u8, right: u8, case: u8) -> Vec<u8> {
    let mut plain = [0u8; 16];
    plain[1] = left; // primary slot
    plain[2] = right; // secondary slot
    plain[3] = case;
    let cipher = Aes128::new(&GenericArray::from(ENC_KEY));
    let mut block = GenericArray::from(plain);
    cipher.encrypt_block(&mut block);
    let tail: [u8; 16] = block.into();
    let mut data = vec![0u8; 11];
    data[5] = status;
    data[10] = conn_state;
    data.extend_from_slice(&tail);
    data
}

#[test]
fn short_advertisement_is_ignored() {
    assert!(parse_advert(&[0u8; 20], &ENC_KEY).is_none());
    assert!(parse_advert(&[0u8; 21], &ENC_KEY).is_some());
}

#[test]
fn battery_ff_means_component_absent() {
    // Primary-left frame (bit 5 set): plain slot 1 is the left bud.
    let status = 0x20;
    let data = advert(status, 1, 0xFF, 0x85, 0x64);
    let rep = parse_advert(&data, &ENC_KEY).unwrap();
    assert_eq!(rep.battery.len(), 2);
    assert_eq!(rep.battery[0].component, BatteryComponent::Right);
    assert_eq!(rep.battery[0].level, 5);
    assert!(matches!(rep.battery[0].status, airpods_core::aacp::BatteryStatus::Charging));
    assert_eq!(rep.battery[1].component, BatteryComponent::Case);
    assert_eq!(rep.battery[1].level, 100);
    assert!(matches!(rep.battery[1].status, airpods_core::aacp::BatteryStatus::NotCharging));
}

#[test]
fn flipped_frame_swaps_battery_slots() {
    // Right-primary frame (bit 5 clear): plain slot 1 is the right bud.
    let status = 0x00;
    let data = advert(status, 1, 0x32, 0x30, 0xFF);
    let rep = parse_advert(&data, &ENC_KEY).unwrap();
    assert_eq!(rep.battery.len(), 2);
    assert_eq!(rep.battery[0].component, BatteryComponent::Left);
    assert_eq!(rep.battery[0].level, 0x30);
    assert_eq!(rep.battery[1].component, BatteryComponent::Right);
    assert_eq!(rep.battery[1].level, 0x32);
}

#[test]
fn xor_factor_swaps_in_ear_bits() {
    // primary_left set, not in case: xor factor on; bit 1 is the left bud.
    let rep = parse_advert(&advert(0x22, 1, 1, 1, 1), &ENC_KEY).unwrap();
    assert!(rep.left_in_ear);
    assert!(!rep.right_in_ear);
    // primary_left set and in case: xor factor off; bit 1 is the right bud.
    let rep = parse_advert(&advert(0x62, 1, 1, 1, 1), &ENC_KEY).unwrap();
    assert!(!rep.left_in_ear);
    assert!(rep.right_in_ear);
    // bit 3 with xor factor on is the right bud.
    let rep = parse_advert(&advert(0x28, 1, 1, 1, 1), &ENC_KEY).unwrap();
    assert!(!rep.left_in_ear);
    assert!(rep.right_in_ear);
}

#[test]
fn connection_state_passes_through() {
    let rep = parse_advert(&advert(0x20, 0x00, 1, 1, 1), &ENC_KEY).unwrap();
    assert_eq!(rep.connection_state, 0);
    let rep = parse_advert(&advert(0x20, 0x03, 1, 1, 1), &ENC_KEY).unwrap();
    assert_eq!(rep.connection_state, 3);
}

fn display_text(wire: &[u8; 6]) -> String {
    let display = [wire[5], wire[4], wire[3], wire[2], wire[1], wire[0]];
    display
        .iter()
        .map(|b| format!("{:02X}", b))
        .collect::<Vec<_>>()
        .join(":")
}

#[test]
fn registry_verifies_once_and_remembers() {
    let irk_a = [3u8; 16];
    let irk_b = [
        0x9e, 0xfb, 0x13, 0xf8, 0x89, 0x12, 0x4c, 0x83, 0x6b, 0x1a, 0x3f, 0x91, 0x02, 0xad, 0x6e,
        0x5d,
    ];
    let irks = vec![irk_a, irk_b];
    let prand = [0xAA, 0xBB, 0xCC];
    let hash = ah(&irk_b, &prand);
    let wire = [hash[0], hash[1], hash[2], prand[0], prand[1], prand[2]];
    let text = display_text(&wire);
    let mut reg = RpaRegistry::new();
    assert_eq!(reg.classify(&text, &wire, &irks), Some(RpaClass::Known(1)));
    // Second sighting: answered from the cache.
    assert_eq!(reg.classify(&text, &wire, &irks), Some(RpaClass::Known(1)));

    let stranger_wire = [1, 2, 3, 4, 5, 6];
    let stranger = display_text(&stranger_wire);
    assert_eq!(reg.classify(&stranger, &stranger_wire, &irks), Some(RpaClass::Unknown));
    // Later sightings of a failed address are dropped silently.
    assert_eq!(reg.classify(&stranger, &stranger_wire, &irks), None);
}

#[test]
fn auto_connect_is_single_flight() {
    let mut arb = ConnectArbiter::new();
    let addr = [0x11, 0x22, 0x33, 0x44, 0x55, 0x66];
    assert!(arb.try_begin(&addr));
    // A second disconnected advertisement within the attempt: dropped.
    assert!(!arb.try_begin(&addr));
    let other = [0x21, 0x22, 0x33, 0x44, 0x55, 0x66];
    assert!(arb.try_begin(&other));
    arb.finish(&addr);
    // After completion the address may be retried.
    assert!(arb.try_begin(&addr));
    assert!(!arb.try_begin(&other));
}

#[test]
fn status_ff_is_tolerated() {
    // A frame whose status byte is all ones still parses; battery bytes of
    // 0xFF stay absent rather than reading as zero-and-charging.
    let data = advert(0xFF, 1, 0xFF, 0xFF, 0xFF);
    let rep = parse_advert(&data, &ENC_KEY).unwrap();
    assert!(rep.battery.is_empty());
    // Bits 5 and 6 are both set, so the xor factor is off and bit 3 reads
    // as the left bud.
    assert!(rep.left_in_ear);
    assert!(rep.right_in_ear);
}
