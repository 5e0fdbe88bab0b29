use aes::cipher::generic_array::GenericArray;
use aes::cipher::{BlockEncrypt, KeyInit};
use aes::Aes128;
use airpods_core::crypto::{ah, aes128_decrypt, aes128_encrypt, e, encrypt_then_decrypt};
use airpods_core::rpa::{parse_key_hex, parse_mac_text, verify_rpa};

const IRK: [u8; 16] = [
    0x9e, 0xfb, 0x13, 0xf8, 0x89, 0x12, 0x4c, 0x83, 0x6b, 0x1a, 0x3f, 0x91, 0x02, 0xad, 0x6e,
    0x5d,
];

fn hex_text(bytes: &[u8; 6]) -> String {
    let mut s = String::new();
    for (i, b) in bytes.iter().enumerate() {
        if i > 0 {
            s.push(':');
        }
        s.push_str(&format!("{:02X}", b));
    }
    s
}

/// The Bluetooth `e` function computed directly with the aes crate, as a
/// cross-check that the library's wrapper does not hand its input back.
fn e_reference(key: &[u8; 16], data: &[u8; 16]) -> [u8; 16] {
    let mut k = *key;
    k.reverse();
    let mut d = *data;
    d.reverse();
    let cipher = Aes128::new(&GenericArray::from(k));
    let mut block = GenericArray::from(d);
    cipher.encrypt_block(&mut block);
    let mut out: [u8; 16] = block.into();
    out.reverse();
    out
}

#[test]
fn aes_round_trip() {
    let key = [7u8; 16];
    let block = [
        0, 1, 2, 3, 4, 5, 6, 7, 8, 9, 10, 11, 12, 13, 14, 255,
    ];
    let c = aes128_encrypt(&key, &block);
    assert_ne!(c, block, "encryption must change the block");
    let p = aes128_decrypt(&key, &c);
    assert_eq!(p, block);
    assert_eq!(encrypt_then_decrypt(&key, &block), block);
}

#[test]
fn e_matches_direct_computation() {
    let key = IRK;
    let data = [
        0x11, 0x22, 0x33, 0, 0, 0, 0, 0, 0, 0, 0, 0, 0, 0, 0, 0,
    ];
    assert_eq!(e(&key, &data), e_reference(&key, &data));
}

#[test]
fn rpa_match_accepts_address_built_from_ah() {
    let prand = [0x11, 0x22, 0x33];
    let hash = ah(&IRK, &prand);
    // Wire order is [hash || prand]; display text reverses the bytes.
    let wire = [hash[0], hash[1], hash[2], prand[0], prand[1], prand[2]];
    let display = [wire[5], wire[4], wire[3], wire[2], wire[1], wire[0]];
    let addr = hex_text(&display);
    assert!(verify_rpa(&addr, &IRK));
}

#[test]
fn rpa_match_rejects_flipped_prand_bit() {
    let prand = [0x11, 0x22, 0x33];
    let hash = ah(&IRK, &prand);
    let flipped = [prand[0] ^ 0x01, prand[1], prand[2]];
    let wire = [hash[0], hash[1], hash[2], flipped[0], flipped[1], flipped[2]];
    let display = [wire[5], wire[4], wire[3], wire[2], wire[1], wire[0]];
    let addr = hex_text(&display);
    assert!(!verify_rpa(&addr, &IRK));
}

#[test]
fn rpa_rejects_malformed_text() {
    assert!(!verify_rpa("", &IRK));
    assert!(!verify_rpa("11:22:33:44:55", &IRK));
    assert!(!verify_rpa("11:22:33:44:55:GG", &IRK));
}

#[test]
fn mac_text_parses_display_order() {
    let parsed = parse_mac_text("0A:1b:2C:3d:4E:5f").unwrap();
    assert_eq!(parsed, [0x0A, 0x1B, 0x2C, 0x3D, 0x4E, 0x5F]);
    assert!(parse_mac_text("0A-1B-2C-3D-4E-5F").is_none());
    assert!(parse_mac_text("0A:1B:2C:3D:4E:5").is_none());
}

#[test]
fn ah_depends_on_every_prand_byte() {
    let h0 = ah(&IRK, &[0x11, 0x22, 0x33]);
    let h1 = ah(&IRK, &[0x12, 0x22, 0x33]);
    let h2 = ah(&IRK, &[0x11, 0x23, 0x33]);
    assert_ne!(h0, h1);
    assert_ne!(h0, h2);
}

#[test]
fn stored_keys_parse_from_hex_text() {
    let key = parse_key_hex("9efb13f889124c836b1a3f9102ad6e5d").unwrap();
    assert_eq!(key, IRK);
    let upper = parse_key_hex("9EFB13F889124C836B1A3F9102AD6E5D").unwrap();
    assert_eq!(upper, IRK);
    assert!(parse_key_hex("9efb13f889124c836b1a3f9102ad6e5").is_none());
    assert!(parse_key_hex("9efb13f889124c836b1a3f9102ad6e5dzz").is_none());
    assert!(parse_key_hex("9efb13f889124c836b1a3f9102ad6e5g").is_none());
}
