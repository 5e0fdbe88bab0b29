//! BLE advertisement decoding and the RPA match registry.
//!
//! Apple manufacturer data carries an encrypted 16-byte tail with battery
//! levels, a status byte with the in-ear bits, and a connection-state byte.
//! Advertisements shorter than 21 bytes are ignored.  Each newly seen
//! address is matched against every stored IRK once; the outcome is
//! remembered so later advertisements skip the cryptography.

use crate::aacp::{BatteryComponent, BatteryInfo, BatteryStatus};
use crate::crypto::aes128_block_inv;
use crate::rpa::spec_verify_rpa;
use vstd::prelude::*;
use vstd::string::StringSliceAdditionalSpecFns;

verus! {

/// Whether the primary bud is the left one, from the status byte.
pub open spec fn spec_primary_left(status: u8) -> bool {
    (status >> 5) & 1 == 1
}

/// Whether the broadcasting bud sits in the case, from the status byte.
pub open spec fn spec_this_in_case(status: u8) -> bool {
    (status >> 6) & 1 == 1
}

/// The factor that decides which bit carries which bud's in-ear state.
pub open spec fn spec_xor_factor(status: u8) -> bool {
    spec_primary_left(status) != spec_this_in_case(status)
}

/// Left bud in-ear, from the status byte.
pub open spec fn spec_left_in_ear(status: u8) -> bool {
    if spec_xor_factor(status) {
        status & 0x02 != 0
    } else {
        status & 0x08 != 0
    }
}

/// Right bud in-ear, from the status byte.
pub open spec fn spec_right_in_ear(status: u8) -> bool {
    if spec_xor_factor(status) {
        status & 0x08 != 0
    } else {
        status & 0x02 != 0
    }
}

/// Law: the xor factor swaps which bit each bud reads; with it set the left
/// bud reads bit 1 and the right bud bit 3, without it the two are swapped.
pub proof fn lemma_xor_factor_swaps(status: u8)
    ensures
        spec_xor_factor(status) ==> spec_left_in_ear(status) == (status & 0x02 != 0)
            && spec_right_in_ear(status) == (status & 0x08 != 0),
        !spec_xor_factor(status) ==> spec_left_in_ear(status) == (status & 0x08 != 0)
            && spec_right_in_ear(status) == (status & 0x02 != 0),
{
}

/// The battery entry one byte yields: none at all for `0xFF` (component
/// absent), otherwise level and charging state.
pub open spec fn spec_battery_entry(component: BatteryComponent, b: u8) -> Option<BatteryInfo> {
    if b == 0xFF {
        None
    } else {
        Some(
            BatteryInfo {
                component,
                level: (b & 0x7F) as u8,
                status: if b & 0x80 != 0 {
                    BatteryStatus::Charging
                } else {
                    BatteryStatus::NotCharging
                },
            },
        )
    }
}

/// An optional entry as a sequence of zero or one readings.
pub open spec fn spec_entry_seq(e: Option<BatteryInfo>) -> Seq<BatteryInfo> {
    match e {
        Some(b) => seq![b],
        None => Seq::empty(),
    }
}

/// Which decrypted byte holds the left bud's battery: the primary bud
/// reports first, so a right-primary frame is flipped.
pub open spec fn spec_left_index(status: u8) -> int {
    if spec_primary_left(status) {
        1
    } else {
        2
    }
}

/// Which decrypted byte holds the right bud's battery.
pub open spec fn spec_right_index(status: u8) -> int {
    if spec_primary_left(status) {
        2
    } else {
        1
    }
}

/// The battery readings one frame yields: left, right, case, each only when
/// its byte is not `0xFF`.
pub open spec fn spec_battery_list(status: u8, dec: Seq<u8>) -> Seq<BatteryInfo> {
    spec_entry_seq(spec_battery_entry(BatteryComponent::Left, dec[spec_left_index(status)]))
        + spec_entry_seq(
        spec_battery_entry(BatteryComponent::Right, dec[spec_right_index(status)]),
    ) + spec_entry_seq(spec_battery_entry(BatteryComponent::Case, dec[3]))
}

/// What one Apple advertisement says once decrypted.
#[derive(Clone, Debug)]
pub struct AdvertReport {
    /// Battery readings for the components present in the frame.
    pub battery: Vec<BatteryInfo>,
    /// Left bud in ear.
    pub left_in_ear: bool,
    /// Right bud in ear.
    pub right_in_ear: bool,
    /// The raw connection-state byte; zero means connected to no host.
    pub connection_state: u8,
}

/// The decrypted tail of an advertisement: its last 16 bytes under the
/// device's advertisement key.
pub open spec fn spec_advert_dec(data: Seq<u8>, key: Seq<u8>) -> Seq<u8> {
    aes128_block_inv(key, data.subrange(data.len() - 16, data.len() as int))
}

/// Decode one Apple manufacturer-data advertisement.  Frames shorter than
/// 21 bytes are ignored; anything else yields a report.
pub fn parse_advert(apple_data: &[u8], enc_key: &[u8; 16]) -> (r: Option<AdvertReport>)
    ensures
        r is Some <==> apple_data@.len() > 20,
        r matches Some(rep) ==> {
            let status = apple_data@[5];
            let dec = spec_advert_dec(apple_data@, enc_key@);
            &&& rep.left_in_ear == spec_left_in_ear(status)
            &&& rep.right_in_ear == spec_right_in_ear(status)
            &&& rep.connection_state == apple_data@[10]
            &&& rep.battery@ == spec_battery_list(status, dec)
        },
{
    let n = apple_data.len();
    if n <= 20 {
        return None;
    }
    let tail: [u8; 16] = [
        apple_data[n - 16],
        apple_data[n - 15],
        apple_data[n - 14],
        apple_data[n - 13],
        apple_data[n - 12],
        apple_data[n - 11],
        apple_data[n - 10],
        apple_data[n - 9],
        apple_data[n - 8],
        apple_data[n - 7],
        apple_data[n - 6],
        apple_data[n - 5],
        apple_data[n - 4],
        apple_data[n - 3],
        apple_data[n - 2],
        apple_data[n - 1],
    ];
    proof {
        assert(tail@ =~= apple_data@.subrange(apple_data@.len() - 16, apple_data@.len() as int));
    }
    let dec = crate::crypto::aes128_decrypt(enc_key, &tail);
    let status = apple_data[5];
    let primary_left = (status >> 5) & 1 == 1;
    let this_in_case = (status >> 6) & 1 == 1;
    let xor_factor = primary_left != this_in_case;
    let left_in_ear = if xor_factor {
        status & 0x02 != 0
    } else {
        status & 0x08 != 0
    };
    let right_in_ear = if xor_factor {
        status & 0x08 != 0
    } else {
        status & 0x02 != 0
    };
    let left_idx: usize = if primary_left {
        1
    } else {
        2
    };
    let right_idx: usize = if primary_left {
        2
    } else {
        1
    };
    let mut battery: Vec<BatteryInfo> = Vec::new();
    let lb = dec[left_idx];
    if lb != 0xFF {
        battery.push(
            BatteryInfo {
                component: BatteryComponent::Left,
                level: lb & 0x7F,
                status: if lb & 0x80 != 0 {
                    BatteryStatus::Charging
                } else {
                    BatteryStatus::NotCharging
                },
            },
        );
    }
    let rb = dec[right_idx];
    if rb != 0xFF {
        battery.push(
            BatteryInfo {
                component: BatteryComponent::Right,
                level: rb & 0x7F,
                status: if rb & 0x80 != 0 {
                    BatteryStatus::Charging
                } else {
                    BatteryStatus::NotCharging
                },
            },
        );
    }
    let cb = dec[3];
    if cb != 0xFF {
        battery.push(
            BatteryInfo {
                component: BatteryComponent::Case,
                level: cb & 0x7F,
                status: if cb & 0x80 != 0 {
                    BatteryStatus::Charging
                } else {
                    BatteryStatus::NotCharging
                },
            },
        );
    }
    proof {
        let dec_s = spec_advert_dec(apple_data@, enc_key@);
        assert(battery@ =~= spec_battery_list(status, dec_s));
    }
    Some(
        AdvertReport {
            battery,
            left_in_ear,
            right_in_ear,
            connection_state: apple_data[10],
        },
    )
}

/// The outcome of classifying an advertising address.
#[derive(Clone, Copy, Debug, PartialEq, Eq, Structural)]
pub enum RpaClass {
    /// The address resolved against the IRK at this index of the record
    /// list, now or earlier.
    Known(usize),
    /// The address matched no stored IRK and is remembered as failed.
    Unknown,
}

/// The first IRK index, at or after `from`, that the address text resolves
/// against.
pub open spec fn spec_first_match(text: Seq<u8>, irks: Seq<[u8; 16]>, from: int) -> Option<int>
    decreases irks.len() - from,
{
    if from < 0 || from >= irks.len() {
        None
    } else if spec_verify_rpa(text, irks[from]@) {
        Some(from)
    } else {
        spec_first_match(text, irks, from + 1)
    }
}

/// Remembers which advertising addresses resolved against a stored IRK and
/// which failed every IRK, so each address is checked at most once.
pub struct RpaRegistry {
    verified: Vec<([u8; 6], usize)>,
    failed: Vec<[u8; 6]>,
}

impl RpaRegistry {
    /// An address is verified when it appears in the verified list.
    pub closed spec fn spec_verified(&self, addr: Seq<u8>) -> bool {
        exists|i: int| 0 <= i < self.verified@.len() && (#[trigger] self.verified@[i]).0@ == addr
    }

    /// An address is failed when it appears in the failed list.
    pub closed spec fn spec_failed(&self, addr: Seq<u8>) -> bool {
        exists|i: int| 0 <= i < self.failed@.len() && (#[trigger] self.failed@[i])@ == addr
    }

    /// No address is both verified and failed.
    pub closed spec fn wf(&self) -> bool {
        forall|a: Seq<u8>| !(self.spec_verified(a) && self.spec_failed(a))
    }

    /// A fresh registry: nothing seen yet.
    pub fn new() -> (r: RpaRegistry)
        ensures
            r.wf(),
            forall|a: Seq<u8>| !r.spec_verified(a) && !r.spec_failed(a),
    {
        RpaRegistry { verified: Vec::new(), failed: Vec::new() }
    }

    /// Compare two addresses byte for byte.
    fn addr_eq(a: &[u8; 6], b: &[u8; 6]) -> (r: bool)
        ensures
            r == (a@ == b@),
    {
        let r = a[0] == b[0] && a[1] == b[1] && a[2] == b[2] && a[3] == b[3] && a[4] == b[4]
            && a[5] == b[5];
        proof {
            if r {
                assert(a@ =~= b@);
            }
        }
        r
    }

    /// The record index a verified address maps to, if it is verified.
    fn lookup_verified(&self, addr: &[u8; 6]) -> (r: Option<usize>)
        ensures
            r is Some <==> self.spec_verified(addr@),
    {
        let mut i: usize = 0;
        while i < self.verified.len()
            invariant
                i <= self.verified@.len(),
                forall|j: int| 0 <= j < i ==> (#[trigger] self.verified@[j]).0@ != addr@,
            decreases self.verified@.len() - i,
        {
            if Self::addr_eq(&self.verified[i].0, addr) {
                return Some(self.verified[i].1);
            }
            i = i + 1;
        }
        None
    }

    /// Whether the address already failed every IRK.
    fn lookup_failed(&self, addr: &[u8; 6]) -> (r: bool)
        ensures
            r == self.spec_failed(addr@),
    {
        let mut i: usize = 0;
        while i < self.failed.len()
            invariant
                i <= self.failed@.len(),
                forall|j: int| 0 <= j < i ==> (#[trigger] self.failed@[j])@ != addr@,
            decreases self.failed@.len() - i,
        {
            if Self::addr_eq(&self.failed[i], addr) {
                return true;
            }
            i = i + 1;
        }
        false
    }

    /// Classify an advertising address against the stored IRKs.  A fresh
    /// address is verified against each IRK in order; the outcome is
    /// remembered, so the check runs at most once per address.  `None` means
    /// the address is to be dropped silently.
    pub fn classify(&mut self, addr_text: &str, addr: &[u8; 6], irks: &Vec<[u8; 16]>) -> (r:
        Option<RpaClass>)
        requires
            old(self).wf(),
        ensures
            final(self).wf(),
            old(self).spec_verified(addr@) ==> (r matches Some(RpaClass::Known(_)) && *final(self)
                == *old(self)),
            old(self).spec_failed(addr@) ==> r is None && *final(self) == *old(self),
            !old(self).spec_verified(addr@) && !old(self).spec_failed(addr@) ==> {
                match spec_first_match(addr_text.spec_bytes(), irks@, 0) {
                    Some(i) => r == Some(RpaClass::Known(i as usize)) && final(self).spec_verified(
                        addr@,
                    ),
                    None => r == Some(RpaClass::Unknown) && final(self).spec_failed(addr@),
                }
            },
    {
        if let Some(idx) = self.lookup_verified(addr) {
            return Some(RpaClass::Known(idx));
        }
        if self.lookup_failed(addr) {
            return None;
        }
        let mut i: usize = 0;
        while i < irks.len()
            invariant
                i <= irks@.len(),
                *self == *old(self),
                old(self).wf(),
                !old(self).spec_verified(addr@),
                !old(self).spec_failed(addr@),
                spec_first_match(addr_text.spec_bytes(), irks@, 0) == spec_first_match(
                    addr_text.spec_bytes(),
                    irks@,
                    i as int,
                ),
            decreases irks@.len() - i,
        {
            let irk = irks[i];
            if crate::rpa::verify_rpa(addr_text, &irk) {
                assert(spec_first_match(addr_text.spec_bytes(), irks@, i as int) == Some(i as int));
                self.verified.push((*addr, i));
                proof {
                    assert(self.spec_verified(addr@)) by {
                        assert((self.verified@[self.verified@.len() - 1]).0@ == addr@);
                    }
                    assert forall|a: Seq<u8>| !(self.spec_verified(a) && self.spec_failed(a)) by {
                        if self.spec_verified(a) && self.spec_failed(a) {
                            let jf = choose|jf: int|
                                0 <= jf < self.failed@.len() && (#[trigger] self.failed@[jf])@
                                    == a;
                            assert((old(self).failed@[jf])@ == a);
                            assert(old(self).spec_failed(a));
                            let j = choose|j: int|
                                0 <= j < self.verified@.len() && (#[trigger] self.verified@[j]).0@
                                    == a;
                            if j < self.verified@.len() - 1 {
                                assert((old(self).verified@[j]).0@ == a);
                                assert(old(self).spec_verified(a));
                                assert(false);
                            } else {
                                assert(a == addr@);
                                assert(false);
                            }
                        }
                    }
                }
                return Some(RpaClass::Known(i));
            }
            i = i + 1;
        }
        assert(spec_first_match(addr_text.spec_bytes(), irks@, irks@.len() as int) is None);
        self.failed.push(*addr);
        proof {
            assert(self.spec_failed(addr@)) by {
                assert((self.failed@[self.failed@.len() - 1])@ == addr@);
            }
            assert forall|a: Seq<u8>| !(self.spec_verified(a) && self.spec_failed(a)) by {
                if self.spec_verified(a) && self.spec_failed(a) {
                    let jv = choose|jv: int|
                        0 <= jv < self.verified@.len() && (#[trigger] self.verified@[jv]).0@ == a;
                    assert((old(self).verified@[jv]).0@ == a);
                    assert(old(self).spec_verified(a));
                    let j = choose|j: int|
                        0 <= j < self.failed@.len() && (#[trigger] self.failed@[j])@ == a;
                    if j < self.failed@.len() - 1 {
                        assert((old(self).failed@[j])@ == a);
                        assert(old(self).spec_failed(a));
                        assert(false);
                    } else {
                        assert(a == addr@);
                        assert(false);
                    }
                }
            }
        }
        Some(RpaClass::Unknown)
    }
}

} // verus!
