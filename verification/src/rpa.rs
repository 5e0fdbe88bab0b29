//! Resolvable-private-address verification.
//!
//! A BLE RPA carries a 3-byte hash and a 3-byte `prand`; a device is ours
//! when `hash == ah(irk, prand)` for one of the stored identity resolution
//! keys.  Addresses arrive as colon-separated hex text in display order and
//! are checked in wire (little-endian) order.

use crate::crypto::spec_ah;
use vstd::prelude::*;
use vstd::string::StringSliceAdditionalSpecFns;

verus! {

/// An ASCII byte that is a hexadecimal digit.
pub open spec fn is_hex_digit(b: u8) -> bool {
    (48 <= b <= 57) || (97 <= b <= 102) || (65 <= b <= 70)
}

/// The value of an ASCII hexadecimal digit.
pub open spec fn hex_val(b: u8) -> u8 {
    if 48 <= b <= 57 {
        (b - 48) as u8
    } else if 97 <= b <= 102 {
        (b - 87) as u8
    } else {
        (b - 55) as u8
    }
}

/// The `k`-th group of well-formed MAC text: two hex digits, then a colon
/// everywhere but after the last group.
pub open spec fn mac_pair_ok(s: Seq<u8>, k: int) -> bool {
    &&& is_hex_digit(s[3 * k])
    &&& is_hex_digit(s[3 * k + 1])
    &&& (k < 5 ==> s[3 * k + 2] == 58)
}

/// Well-formed MAC address text: 17 bytes, hex digits in pairs separated by
/// colons (`AA:BB:CC:DD:EE:FF`).
pub open spec fn mac_text_wf(s: Seq<u8>) -> bool {
    &&& s.len() == 17
    &&& forall|k: int| 0 <= k < 6 ==> #[trigger] mac_pair_ok(s, k)
}

/// The `k`-th byte named by well-formed MAC text, in display order.
pub open spec fn mac_byte_at(s: Seq<u8>, k: int) -> u8 {
    (hex_val(s[3 * k]) * 16 + hex_val(s[3 * k + 1])) as u8
}

/// The six bytes named by well-formed MAC text, in display order.
pub open spec fn mac_bytes(s: Seq<u8>) -> Seq<u8> {
    Seq::new(6, |k: int| mac_byte_at(s, k))
}

/// An RPA in wire order matches an IRK when its low 3 bytes equal
/// `ah(irk, prand)` for the high 3 bytes `prand`.
pub open spec fn rpa_hash_matches(rpa: Seq<u8>, irk: Seq<u8>) -> bool {
    rpa.subrange(0, 3) == spec_ah(irk, rpa.subrange(3, 6))
}

/// What `verify_rpa` decides: the text is a well-formed MAC address and its
/// bytes, reversed into wire order, pass the hash check.
pub open spec fn spec_verify_rpa(text: Seq<u8>, irk: Seq<u8>) -> bool {
    mac_text_wf(text) && rpa_hash_matches(mac_bytes(text).reverse(), irk)
}

/// Value of one hex digit byte, or `None` when the byte is no hex digit.
fn hex_digit_val(b: u8) -> (r: Option<u8>)
    ensures
        r is Some <==> is_hex_digit(b),
        r matches Some(v) ==> v == hex_val(b),
{
    if 48 <= b && b <= 57 {
        Some(b - 48)
    } else if 97 <= b && b <= 102 {
        Some(b - 87)
    } else if 65 <= b && b <= 70 {
        Some(b - 55)
    } else {
        None
    }
}

/// Parse colon-separated MAC address text into its six bytes, display order.
pub fn parse_mac_text(addr: &str) -> (r: Option<[u8; 6]>)
    ensures
        r is Some <==> mac_text_wf(addr.spec_bytes()),
        r matches Some(b) ==> b@ == mac_bytes(addr.spec_bytes()),
{
    let bytes: &[u8] = addr.as_bytes();
    if bytes.len() != 17 {
        return None;
    }
    let mut out: [u8; 6] = [0; 6];
    let mut k: usize = 0;
    while k < 6
        invariant
            k <= 6,
            bytes@ == addr.spec_bytes(),
            bytes@.len() == 17,
            forall|j: int| 0 <= j < k ==> mac_pair_ok(bytes@, j),
            forall|j: int| 0 <= j < k ==> out@[j] == mac_byte_at(bytes@, j),
        decreases 6 - k,
    {
        let hi = match hex_digit_val(bytes[3 * k]) {
            Some(v) => v,
            None => {
                assert(!mac_pair_ok(bytes@, k as int));
                return None;
            },
        };
        let lo = match hex_digit_val(bytes[3 * k + 1]) {
            Some(v) => v,
            None => {
                assert(!mac_pair_ok(bytes@, k as int));
                return None;
            },
        };
        if k < 5 && bytes[3 * k + 2] != 58 {
            assert(!mac_pair_ok(bytes@, k as int));
            return None;
        }
        out[k] = hi * 16 + lo;
        k = k + 1;
    }
    assert(out@ =~= mac_bytes(addr.spec_bytes()));
    Some(out)
}

/// Well-formed key text: exactly 32 hex digits, no separators.
pub open spec fn key_text_wf(s: Seq<u8>) -> bool {
    s.len() == 32 && forall|i: int| 0 <= i < 32 ==> is_hex_digit(#[trigger] s[i])
}

/// The `k`-th byte named by well-formed key text.
pub open spec fn key_byte_at(s: Seq<u8>, k: int) -> u8 {
    (hex_val(s[2 * k]) * 16 + hex_val(s[2 * k + 1])) as u8
}

/// The sixteen bytes named by well-formed key text.
pub open spec fn key_bytes(s: Seq<u8>) -> Seq<u8> {
    Seq::new(16, |k: int| key_byte_at(s, k))
}

/// Parse a stored key — an IRK or advertisement key — from its 32-digit
/// hex text.  Anything else is rejected, never an error; records with
/// malformed keys are skipped.
pub fn parse_key_hex(text: &str) -> (r: Option<[u8; 16]>)
    ensures
        r is Some <==> key_text_wf(text.spec_bytes()),
        r matches Some(b) ==> b@ == key_bytes(text.spec_bytes()),
{
    let bytes: &[u8] = text.as_bytes();
    if bytes.len() != 32 {
        return None;
    }
    let mut out: [u8; 16] = [0; 16];
    let mut k: usize = 0;
    while k < 16
        invariant
            k <= 16,
            bytes@ == text.spec_bytes(),
            bytes@.len() == 32,
            forall|i: int| 0 <= i < 2 * k ==> is_hex_digit(#[trigger] bytes@[i]),
            forall|j: int| 0 <= j < k ==> out@[j] == key_byte_at(bytes@, j),
        decreases 16 - k,
    {
        let hi = match hex_digit_val(bytes[2 * k]) {
            Some(v) => v,
            None => {
                return None;
            },
        };
        let lo = match hex_digit_val(bytes[2 * k + 1]) {
            Some(v) => v,
            None => {
                return None;
            },
        };
        out[k] = hi * 16 + lo;
        k = k + 1;
    }
    assert(out@ =~= key_bytes(text.spec_bytes()));
    Some(out)
}

/// Decide whether address text resolves against the given IRK.  Malformed
/// text is rejected, never an error.
pub fn verify_rpa(addr: &str, irk: &[u8; 16]) -> (r: bool)
    ensures
        r == spec_verify_rpa(addr.spec_bytes(), irk@),
{
    let mac = match parse_mac_text(addr) {
        Some(m) => m,
        None => {
            return false;
        },
    };
    let prand: [u8; 3] = [mac[2], mac[1], mac[0]];
    let computed = crate::crypto::ah(irk, &prand);
    let r = mac[5] == computed[0] && mac[4] == computed[1] && mac[3] == computed[2];
    proof {
        let wire = mac_bytes(addr.spec_bytes()).reverse();
        assert(wire.subrange(3, 6) =~= prand@);
        assert(r == (wire.subrange(0, 3) =~= spec_ah(irk@, wire.subrange(3, 6))));
    }
    r
}

/// Law: an RPA whose hash half is `ah(irk, prand)` for its own `prand` half
/// is accepted.
pub proof fn lemma_rpa_of_ah_accepted(irk: Seq<u8>, prand: Seq<u8>)
    requires
        prand.len() == 3,
    ensures
        rpa_hash_matches(spec_ah(irk, prand) + prand, irk),
{
    let rpa = spec_ah(irk, prand) + prand;
    assert(rpa.subrange(0, 3) =~= spec_ah(irk, prand));
    assert(rpa.subrange(3, 6) =~= prand);
}

/// Law: an RPA is accepted exactly when its hash half equals `ah` of its
/// `prand` half; any other hash is rejected.
pub proof fn lemma_rpa_accept_iff(irk: Seq<u8>, hash: Seq<u8>, prand: Seq<u8>)
    requires
        hash.len() == 3,
        prand.len() == 3,
    ensures
        rpa_hash_matches(hash + prand, irk) <==> hash == spec_ah(irk, prand),
{
    let rpa = hash + prand;
    assert(rpa.subrange(0, 3) =~= hash);
    assert(rpa.subrange(3, 6) =~= prand);
}

} // verus!
