//! Apple product-ID lookup: model names, feature bits, and the models that
//! need the extended init packet, plus BlueZ Modalias parsing.

use vstd::prelude::*;
use vstd::string::StringSliceAdditionalSpecFns;

verus! {

/// What a product ID says about a model.
pub struct AppleModelInfo {
    pub name: &'static str,
    pub has_anc: bool,
    pub has_adaptive: bool,
    pub has_stem_controls: bool,
    pub has_conversation_awareness: bool,
}

/// Apple's Bluetooth vendor ID.
pub const APPLE_VENDOR_ID: u16 = 0x004c;

/// Feature bits of a product ID, in the order: ANC, adaptive ANC, stem
/// controls, conversation awareness.
pub open spec fn spec_model_features(product_id: u16) -> (bool, bool, bool, bool) {
    if product_id == 0x2002 || product_id == 0x200f {
        (false, false, false, false)
    } else if product_id == 0x2013 || product_id == 0x2019 {
        (false, false, true, false)
    } else if product_id == 0x201b || product_id == 0x2014 || product_id == 0x2027 || product_id
        == 0x2024 {
        (true, true, true, true)
    } else if product_id == 0x200e {
        (true, false, true, false)
    } else if product_id == 0x200a || product_id == 0x201f || product_id == 0x201d || product_id
        == 0x200c || product_id == 0x2009 || product_id == 0x2012 || product_id == 0x2011
        || product_id == 0x2016 || product_id == 0x2017 || product_id == 0x2025 {
        (true, false, false, false)
    } else if product_id == 0x200b || product_id == 0x2006 || product_id == 0x2005 || product_id
        == 0x2010 || product_id == 0x2003 || product_id == 0x200d || product_id == 0x2026 {
        (false, false, false, false)
    } else {
        (true, false, false, false)
    }
}

/// Whether a model needs the extended init packet to unlock adaptive ANC:
/// exactly the four product IDs with adaptive support.
pub open spec fn spec_needs_init_ext(product_id: u16) -> bool {
    product_id == 0x201b || product_id == 0x2014 || product_id == 0x2027 || product_id == 0x2024
}

/// Model name and feature bits for a product ID; unknown Apple devices get
/// safe defaults.
pub fn model_info(product_id: u16) -> (r: AppleModelInfo)
    ensures
        r.has_anc == spec_model_features(product_id).0,
        r.has_adaptive == spec_model_features(product_id).1,
        r.has_stem_controls == spec_model_features(product_id).2,
        r.has_conversation_awareness == spec_model_features(product_id).3,
{
    if product_id == 0x2002 {
        AppleModelInfo {
            name: "AirPods (1st gen)",
            has_anc: false,
            has_adaptive: false,
            has_stem_controls: false,
            has_conversation_awareness: false,
        }
    } else if product_id == 0x200f {
        AppleModelInfo {
            name: "AirPods (2nd gen)",
            has_anc: false,
            has_adaptive: false,
            has_stem_controls: false,
            has_conversation_awareness: false,
        }
    } else if product_id == 0x2013 {
        AppleModelInfo {
            name: "AirPods (3rd gen)",
            has_anc: false,
            has_adaptive: false,
            has_stem_controls: true,
            has_conversation_awareness: false,
        }
    } else if product_id == 0x2019 {
        AppleModelInfo {
            name: "AirPods (4th gen)",
            has_anc: false,
            has_adaptive: false,
            has_stem_controls: true,
            has_conversation_awareness: false,
        }
    } else if product_id == 0x201b {
        AppleModelInfo {
            name: "AirPods 4 ANC",
            has_anc: true,
            has_adaptive: true,
            has_stem_controls: true,
            has_conversation_awareness: true,
        }
    } else if product_id == 0x200e {
        AppleModelInfo {
            name: "AirPods Pro",
            has_anc: true,
            has_adaptive: false,
            has_stem_controls: true,
            has_conversation_awareness: false,
        }
    } else if product_id == 0x2014 {
        AppleModelInfo {
            name: "AirPods Pro 2",
            has_anc: true,
            has_adaptive: true,
            has_stem_controls: true,
            has_conversation_awareness: true,
        }
    } else if product_id == 0x2027 {
        AppleModelInfo {
            name: "AirPods Pro 3",
            has_anc: true,
            has_adaptive: true,
            has_stem_controls: true,
            has_conversation_awareness: true,
        }
    } else if product_id == 0x2024 {
        AppleModelInfo {
            name: "AirPods Pro (USB-C)",
            has_anc: true,
            has_adaptive: true,
            has_stem_controls: true,
            has_conversation_awareness: true,
        }
    } else if product_id == 0x200a {
        AppleModelInfo {
            name: "AirPods Max",
            has_anc: true,
            has_adaptive: false,
            has_stem_controls: false,
            has_conversation_awareness: false,
        }
    } else if product_id == 0x201f {
        AppleModelInfo {
            name: "AirPods Max (2024)",
            has_anc: true,
            has_adaptive: false,
            has_stem_controls: false,
            has_conversation_awareness: false,
        }
    } else if product_id == 0x200b {
        AppleModelInfo {
            name: "Powerbeats Pro",
            has_anc: false,
            has_adaptive: false,
            has_stem_controls: false,
            has_conversation_awareness: false,
        }
    } else if product_id == 0x201d {
        AppleModelInfo {
            name: "Powerbeats Pro 2",
            has_anc: true,
            has_adaptive: false,
            has_stem_controls: false,
            has_conversation_awareness: false,
        }
    } else if product_id == 0x2006 {
        AppleModelInfo {
            name: "Beats Solo3",
            has_anc: false,
            has_adaptive: false,
            has_stem_controls: false,
            has_conversation_awareness: false,
        }
    } else if product_id == 0x200c {
        AppleModelInfo {
            name: "Beats Solo Pro",
            has_anc: true,
            has_adaptive: false,
            has_stem_controls: false,
            has_conversation_awareness: false,
        }
    } else if product_id == 0x2009 {
        AppleModelInfo {
            name: "Beats Studio3",
            has_anc: true,
            has_adaptive: false,
            has_stem_controls: false,
            has_conversation_awareness: false,
        }
    } else if product_id == 0x2005 {
        AppleModelInfo {
            name: "Beats X",
            has_anc: false,
            has_adaptive: false,
            has_stem_controls: false,
            has_conversation_awareness: false,
        }
    } else if product_id == 0x2010 {
        AppleModelInfo {
            name: "Beats Flex",
            has_anc: false,
            has_adaptive: false,
            has_stem_controls: false,
            has_conversation_awareness: false,
        }
    } else if product_id == 0x2003 {
        AppleModelInfo {
            name: "Powerbeats3",
            has_anc: false,
            has_adaptive: false,
            has_stem_controls: false,
            has_conversation_awareness: false,
        }
    } else if product_id == 0x200d {
        AppleModelInfo {
            name: "Powerbeats4",
            has_anc: false,
            has_adaptive: false,
            has_stem_controls: false,
            has_conversation_awareness: false,
        }
    } else if product_id == 0x2012 {
        AppleModelInfo {
            name: "Beats Fit Pro",
            has_anc: true,
            has_adaptive: false,
            has_stem_controls: false,
            has_conversation_awareness: false,
        }
    } else if product_id == 0x2011 {
        AppleModelInfo {
            name: "Beats Studio Buds",
            has_anc: true,
            has_adaptive: false,
            has_stem_controls: false,
            has_conversation_awareness: false,
        }
    } else if product_id == 0x2016 {
        AppleModelInfo {
            name: "Beats Studio Buds+",
            has_anc: true,
            has_adaptive: false,
            has_stem_controls: false,
            has_conversation_awareness: false,
        }
    } else if product_id == 0x2017 {
        AppleModelInfo {
            name: "Beats Studio Pro",
            has_anc: true,
            has_adaptive: false,
            has_stem_controls: false,
            has_conversation_awareness: false,
        }
    } else if product_id == 0x2025 {
        AppleModelInfo {
            name: "Beats Solo 4",
            has_anc: true,
            has_adaptive: false,
            has_stem_controls: false,
            has_conversation_awareness: false,
        }
    } else if product_id == 0x2026 {
        AppleModelInfo {
            name: "Beats Solo Buds",
            has_anc: false,
            has_adaptive: false,
            has_stem_controls: false,
            has_conversation_awareness: false,
        }
    } else {
        AppleModelInfo {
            name: "Apple Headphones",
            has_anc: true,
            has_adaptive: false,
            has_stem_controls: false,
            has_conversation_awareness: false,
        }
    }
}

/// True exactly for the product IDs that need the extended init packet.
pub fn needs_init_ext(product_id: u16) -> (r: bool)
    ensures
        r == spec_needs_init_ext(product_id),
{
    product_id == 0x201b || product_id == 0x2014 || product_id == 0x2027 || product_id == 0x2024
}

/// Four hex digits of ASCII text starting at `pos`, as a number, when all
/// four are digits.
pub open spec fn spec_hex4(s: Seq<u8>, pos: int) -> Option<u16> {
    if pos + 4 <= s.len() && crate::rpa::is_hex_digit(s[pos]) && crate::rpa::is_hex_digit(
        s[pos + 1],
    ) && crate::rpa::is_hex_digit(s[pos + 2]) && crate::rpa::is_hex_digit(s[pos + 3]) {
        Some(
            (crate::rpa::hex_val(s[pos]) * 0x1000 + crate::rpa::hex_val(s[pos + 1]) * 0x100
                + crate::rpa::hex_val(s[pos + 2]) * 0x10 + crate::rpa::hex_val(
                s[pos + 3],
            )) as u16,
        )
    } else {
        None
    }
}

/// The position of the first occurrence of a byte, if any.
pub open spec fn spec_find_byte(s: Seq<u8>, b: u8, from: int) -> Option<int>
    decreases s.len() - from,
{
    if from < 0 || from >= s.len() {
        None
    } else if s[from] == b {
        Some(from)
    } else {
        spec_find_byte(s, b, from + 1)
    }
}

/// What `parse_modalias` yields: the four hex digits after the first `v`
/// and the four after the first `p`, when both are present and whole.
pub open spec fn spec_parse_modalias(s: Seq<u8>) -> Option<(u16, u16)> {
    match spec_find_byte(s, 118, 0) {
        Some(v_pos) => match spec_hex4(s, v_pos + 1) {
            Some(vendor) => match spec_find_byte(s, 112, 0) {
                Some(p_pos) => match spec_hex4(s, p_pos + 1) {
                    Some(product) => Some((vendor, product)),
                    None => None,
                },
                None => None,
            },
            None => None,
        },
        None => None,
    }
}

/// Find the first occurrence of a byte in ASCII text.
fn find_byte(s: &[u8], b: u8) -> (r: Option<usize>)
    ensures
        spec_find_byte(s@, b, 0) == (match r {
            Some(p) => Some(p as int),
            None => None::<int>,
        }),
        r matches Some(p) ==> p < s@.len(),
{
    let n = s.len();
    let mut i: usize = 0;
    while i < n
        invariant
            i <= n,
            n == s@.len(),
            spec_find_byte(s@, b, 0) == spec_find_byte(s@, b, i as int),
        decreases n - i,
    {
        if s[i] == b {
            return Some(i);
        }
        i = i + 1;
    }
    None
}

/// Four hex digits starting at `pos`, as a number.
fn hex4(s: &[u8], pos: usize) -> (r: Option<u16>)
    ensures
        r == spec_hex4(s@, pos as int),
{
    if pos >= s.len() || s.len() - pos < 4 {
        return None;
    }
    let d0 = match hex_digit(s[pos]) {
        Some(v) => v,
        None => {
            return None;
        },
    };
    let d1 = match hex_digit(s[pos + 1]) {
        Some(v) => v,
        None => {
            return None;
        },
    };
    let d2 = match hex_digit(s[pos + 2]) {
        Some(v) => v,
        None => {
            return None;
        },
    };
    let d3 = match hex_digit(s[pos + 3]) {
        Some(v) => v,
        None => {
            return None;
        },
    };
    Some((d0 as u16) * 0x1000 + (d1 as u16) * 0x100 + (d2 as u16) * 0x10 + (d3 as u16))
}

/// Value of one hex digit byte.
fn hex_digit(b: u8) -> (r: Option<u8>)
    ensures
        r is Some <==> crate::rpa::is_hex_digit(b),
        r matches Some(v) ==> v == crate::rpa::hex_val(b),
{
    if 48 <= b && b <= 57 {
        Some(b - 48)
    } else if 97 <= b && b <= 102 {
        Some(b - 87)
    } else if 65 <= b && b <= 70 {
        Some(b - 55)
    } else {
        None
    }
}

/// Parse a BlueZ Modalias string such as `bluetooth:v004cp200edB087` into
/// its vendor and product IDs.
pub fn parse_modalias(modalias: &str) -> (r: Option<(u16, u16)>)
    ensures
        r == spec_parse_modalias(modalias.spec_bytes()),
{
    let bytes: &[u8] = modalias.as_bytes();
    let nb = bytes.len();
    let v_pos = match find_byte(bytes, 118) {
        Some(p) => p,
        None => {
            return None;
        },
    };
    assert(v_pos < nb);
    let vendor = match hex4(bytes, v_pos + 1) {
        Some(v) => v,
        None => {
            return None;
        },
    };
    let p_pos = match find_byte(bytes, 112) {
        Some(p) => p,
        None => {
            return None;
        },
    };
    assert(p_pos < nb);
    let product = match hex4(bytes, p_pos + 1) {
        Some(v) => v,
        None => {
            return None;
        },
    };
    Some((vendor, product))
}

} // verus!
