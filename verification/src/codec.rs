//! The AACP frame codec.
//!
//! Every frame is the fixed 4-byte header `04 00 04 00`, a message type as a
//! little-endian `u16`, and a payload whose shape the message type fixes.
//! Encoding and decoding are exact inverses on well-formed messages; unknown
//! types and short payloads decode to nothing and are dropped by the session,
//! never an error.

use crate::aacp::{
    spec_cc_id_byte, spec_cc_id_of_byte, BatteryComponent, BatteryInfo, BatteryStatus,
    ConnectedDevice, ControlCommandIdentifiers, EarDetectionStatus, ProximityKeyType,
    StemPressBud, StemPressType,
};
use vstd::prelude::*;
use vstd::slice::{slice_subrange, slice_to_vec};

verus! {

/// Spec-level form of a connected peer: the MAC as a byte sequence.
pub struct PeerV {
    pub mac: Seq<u8>,
    pub info1: u8,
    pub info2: u8,
}

impl View for ConnectedDevice {
    type V = PeerV;

    open spec fn view(&self) -> PeerV {
        PeerV { mac: self.mac@, info1: self.info1, info2: self.info2 }
    }
}

/// Spec-level form of an AACP message; byte strings are sequences.
pub enum MsgV {
    Handshake,
    SetFeatureFlags,
    RequestNotifications,
    InitExt,
    ProximityKeysRequest { key_types: Seq<ProximityKeyType> },
    ControlCommand { identifier: ControlCommandIdentifiers, value: Seq<u8> },
    Rename { name: Seq<u8> },
    MediaInformation { local: Seq<u8>, remote: Seq<u8>, playing: bool },
    SmartRoutingShowUi { mac: Seq<u8> },
    HijackRequest { mac: Seq<u8> },
    MediaInformationNewDevice { local: Seq<u8>, new_device: Seq<u8> },
    AddTipiDevice { local: Seq<u8>, new_device: Seq<u8> },
    BatteryState { items: Seq<BatteryInfo> },
    EarDetectionState { left: EarDetectionStatus, right: EarDetectionStatus },
    ConversationalAwarenessStatus { level: u8 },
    ConnectedPeers { peers: Seq<PeerV> },
    OwnershipToFalseRequest,
    StemPress { kind: StemPressType, bud: StemPressBud },
    DeviceInfoMessage { name: Seq<u8>, serial_number: Seq<u8> },
}

/// A well-formed message: MAC fields are 6 bytes and length-prefixed strings
/// fit their one-byte length.
pub open spec fn msg_wf(v: MsgV) -> bool {
    match v {
        MsgV::MediaInformation { local, remote, .. } => local.len() == 6 && remote.len() == 6,
        MsgV::SmartRoutingShowUi { mac } => mac.len() == 6,
        MsgV::HijackRequest { mac } => mac.len() == 6,
        MsgV::MediaInformationNewDevice { local, new_device } => local.len() == 6
            && new_device.len() == 6,
        MsgV::AddTipiDevice { local, new_device } => local.len() == 6 && new_device.len() == 6,
        MsgV::ConnectedPeers { peers } => forall|i: int|
            0 <= i < peers.len() ==> (#[trigger] peers[i]).mac.len() == 6,
        MsgV::DeviceInfoMessage { name, serial_number } => name.len() <= 255
            && serial_number.len() <= 255,
        _ => true,
    }
}

/// The fixed AACP frame header.
pub open spec fn spec_header() -> Seq<u8> {
    seq![4u8, 0u8, 4u8, 0u8]
}

/// The message type of each message.
pub open spec fn spec_opcode(v: MsgV) -> u16 {
    match v {
        MsgV::Handshake => 1,
        MsgV::SetFeatureFlags => 2,
        MsgV::RequestNotifications => 3,
        MsgV::InitExt => 4,
        MsgV::ProximityKeysRequest { .. } => 5,
        MsgV::ControlCommand { .. } => 6,
        MsgV::Rename { .. } => 7,
        MsgV::MediaInformation { .. } => 8,
        MsgV::SmartRoutingShowUi { .. } => 9,
        MsgV::HijackRequest { .. } => 10,
        MsgV::MediaInformationNewDevice { .. } => 11,
        MsgV::AddTipiDevice { .. } => 12,
        MsgV::BatteryState { .. } => 13,
        MsgV::EarDetectionState { .. } => 14,
        MsgV::ConversationalAwarenessStatus { .. } => 15,
        MsgV::ConnectedPeers { .. } => 16,
        MsgV::OwnershipToFalseRequest => 17,
        MsgV::StemPress { .. } => 18,
        MsgV::DeviceInfoMessage { .. } => 19,
    }
}

/// Wire byte of a proximity key kind.
pub open spec fn spec_prox_key_byte(k: ProximityKeyType) -> u8 {
    match k {
        ProximityKeyType::Irk => 1,
        ProximityKeyType::EncKey => 2,
    }
}

/// Proximity key kind of a wire byte, if any.
pub open spec fn spec_prox_key_of_byte(b: u8) -> Option<ProximityKeyType> {
    if b == 1 {
        Some(ProximityKeyType::Irk)
    } else if b == 2 {
        Some(ProximityKeyType::EncKey)
    } else {
        None
    }
}

/// Wire byte of a battery component.
pub open spec fn spec_batt_comp_byte(c: BatteryComponent) -> u8 {
    match c {
        BatteryComponent::Left => 1,
        BatteryComponent::Right => 2,
        BatteryComponent::Case => 3,
        BatteryComponent::Headphone => 4,
    }
}

/// Battery component of a wire byte, if any.
pub open spec fn spec_batt_comp_of_byte(b: u8) -> Option<BatteryComponent> {
    if b == 1 {
        Some(BatteryComponent::Left)
    } else if b == 2 {
        Some(BatteryComponent::Right)
    } else if b == 3 {
        Some(BatteryComponent::Case)
    } else if b == 4 {
        Some(BatteryComponent::Headphone)
    } else {
        None
    }
}

/// Wire byte of a battery status.
pub open spec fn spec_batt_status_byte(s: BatteryStatus) -> u8 {
    match s {
        BatteryStatus::Charging => 1,
        BatteryStatus::NotCharging => 2,
        BatteryStatus::InUse => 3,
    }
}

/// Battery status of a wire byte, if any.
pub open spec fn spec_batt_status_of_byte(b: u8) -> Option<BatteryStatus> {
    if b == 1 {
        Some(BatteryStatus::Charging)
    } else if b == 2 {
        Some(BatteryStatus::NotCharging)
    } else if b == 3 {
        Some(BatteryStatus::InUse)
    } else {
        None
    }
}

/// Wire byte of an ear-detection status.
pub open spec fn spec_ear_status_byte(s: EarDetectionStatus) -> u8 {
    match s {
        EarDetectionStatus::InEar => 1,
        EarDetectionStatus::OutOfEar => 2,
        EarDetectionStatus::InCase => 3,
    }
}

/// Ear-detection status of a wire byte, if any.
pub open spec fn spec_ear_status_of_byte(b: u8) -> Option<EarDetectionStatus> {
    if b == 1 {
        Some(EarDetectionStatus::InEar)
    } else if b == 2 {
        Some(EarDetectionStatus::OutOfEar)
    } else if b == 3 {
        Some(EarDetectionStatus::InCase)
    } else {
        None
    }
}

/// Wire byte of a stem press kind.
pub open spec fn spec_stem_kind_byte(k: StemPressType) -> u8 {
    match k {
        StemPressType::SinglePress => 1,
        StemPressType::DoublePress => 2,
        StemPressType::TriplePress => 3,
        StemPressType::LongPress => 4,
    }
}

/// Stem press kind of a wire byte, if any.
pub open spec fn spec_stem_kind_of_byte(b: u8) -> Option<StemPressType> {
    if b == 1 {
        Some(StemPressType::SinglePress)
    } else if b == 2 {
        Some(StemPressType::DoublePress)
    } else if b == 3 {
        Some(StemPressType::TriplePress)
    } else if b == 4 {
        Some(StemPressType::LongPress)
    } else {
        None
    }
}

/// Wire byte of the bud a stem press came from.
pub open spec fn spec_stem_bud_byte(b: StemPressBud) -> u8 {
    match b {
        StemPressBud::Left => 1,
        StemPressBud::Right => 2,
    }
}

/// Stem press bud of a wire byte, if any.
pub open spec fn spec_stem_bud_of_byte(b: u8) -> Option<StemPressBud> {
    if b == 1 {
        Some(StemPressBud::Left)
    } else if b == 2 {
        Some(StemPressBud::Right)
    } else {
        None
    }
}

/// The 3 bytes of one battery reading.
pub open spec fn spec_batt_entry_bytes(e: BatteryInfo) -> Seq<u8> {
    seq![spec_batt_comp_byte(e.component), e.level, spec_batt_status_byte(e.status)]
}

/// One battery reading from 3 bytes, if valid.
pub open spec fn spec_parse_batt_entry(b: Seq<u8>) -> Option<BatteryInfo>
    recommends
        b.len() == 3,
{
    match (spec_batt_comp_of_byte(b[0]), spec_batt_status_of_byte(b[2])) {
        (Some(component), Some(status)) => Some(
            BatteryInfo { component, level: b[1], status },
        ),
        _ => None,
    }
}

/// The bytes of a battery reading list: 3 bytes per reading.
pub open spec fn spec_batt_items_bytes(items: Seq<BatteryInfo>) -> Seq<u8>
    decreases items.len(),
{
    if items.len() == 0 {
        Seq::empty()
    } else {
        spec_batt_entry_bytes(items[0]) + spec_batt_items_bytes(
            items.subrange(1, items.len() as int),
        )
    }
}

/// A battery reading list from its bytes, if every 3-byte group is valid.
pub open spec fn spec_parse_batt_items(p: Seq<u8>) -> Option<Seq<BatteryInfo>>
    decreases p.len(),
{
    if p.len() == 0 {
        Some(Seq::empty())
    } else if p.len() < 3 {
        None
    } else {
        match (spec_parse_batt_entry(p.subrange(0, 3)), spec_parse_batt_items(
            p.subrange(3, p.len() as int),
        )) {
            (Some(e), Some(rest)) => Some(seq![e] + rest),
            _ => None,
        }
    }
}

/// The 8 bytes of one connected peer: MAC, then the two info bytes.
pub open spec fn spec_peer_bytes(d: PeerV) -> Seq<u8> {
    d.mac + seq![d.info1, d.info2]
}

/// One connected peer from 8 bytes.
pub open spec fn spec_parse_peer(b: Seq<u8>) -> PeerV
    recommends
        b.len() == 8,
{
    PeerV { mac: b.subrange(0, 6), info1: b[6], info2: b[7] }
}

/// The bytes of a connected-peers list: 8 bytes per peer.
pub open spec fn spec_peers_bytes(peers: Seq<PeerV>) -> Seq<u8>
    decreases peers.len(),
{
    if peers.len() == 0 {
        Seq::empty()
    } else {
        spec_peer_bytes(peers[0]) + spec_peers_bytes(peers.subrange(1, peers.len() as int))
    }
}

/// A connected-peers list from its bytes, if they fall into 8-byte groups.
pub open spec fn spec_parse_peers(p: Seq<u8>) -> Option<Seq<PeerV>>
    decreases p.len(),
{
    if p.len() == 0 {
        Some(Seq::empty())
    } else if p.len() < 8 {
        None
    } else {
        match spec_parse_peers(p.subrange(8, p.len() as int)) {
            Some(rest) => Some(seq![spec_parse_peer(p.subrange(0, 8))] + rest),
            None => None,
        }
    }
}

/// The bytes of a proximity-key kind list: one byte per kind.
pub open spec fn spec_prox_keys_bytes(keys: Seq<ProximityKeyType>) -> Seq<u8>
    decreases keys.len(),
{
    if keys.len() == 0 {
        Seq::empty()
    } else {
        seq![spec_prox_key_byte(keys[0])] + spec_prox_keys_bytes(
            keys.subrange(1, keys.len() as int),
        )
    }
}

/// A proximity-key kind list from its bytes, if every byte is a known kind.
pub open spec fn spec_parse_prox_keys(p: Seq<u8>) -> Option<Seq<ProximityKeyType>>
    decreases p.len(),
{
    if p.len() == 0 {
        Some(Seq::empty())
    } else {
        match (spec_prox_key_of_byte(p[0]), spec_parse_prox_keys(p.subrange(1, p.len() as int))) {
            (Some(k), Some(rest)) => Some(seq![k] + rest),
            _ => None,
        }
    }
}

/// The payload of each message.
pub open spec fn spec_payload(v: MsgV) -> Seq<u8> {
    match v {
        MsgV::Handshake => Seq::empty(),
        MsgV::SetFeatureFlags => Seq::empty(),
        MsgV::RequestNotifications => Seq::empty(),
        MsgV::InitExt => Seq::empty(),
        MsgV::ProximityKeysRequest { key_types } => spec_prox_keys_bytes(key_types),
        MsgV::ControlCommand { identifier, value } => seq![spec_cc_id_byte(identifier)] + value,
        MsgV::Rename { name } => name,
        MsgV::MediaInformation { local, remote, playing } => local + remote + seq![
            if playing {
                1u8
            } else {
                0u8
            },
        ],
        MsgV::SmartRoutingShowUi { mac } => mac,
        MsgV::HijackRequest { mac } => mac,
        MsgV::MediaInformationNewDevice { local, new_device } => local + new_device,
        MsgV::AddTipiDevice { local, new_device } => local + new_device,
        MsgV::BatteryState { items } => spec_batt_items_bytes(items),
        MsgV::EarDetectionState { left, right } => seq![
            spec_ear_status_byte(left),
            spec_ear_status_byte(right),
        ],
        MsgV::ConversationalAwarenessStatus { level } => seq![level],
        MsgV::ConnectedPeers { peers } => spec_peers_bytes(peers),
        MsgV::OwnershipToFalseRequest => Seq::empty(),
        MsgV::StemPress { kind, bud } => seq![spec_stem_kind_byte(kind), spec_stem_bud_byte(bud)],
        MsgV::DeviceInfoMessage { name, serial_number } => seq![name.len() as u8] + name + seq![
            serial_number.len() as u8,
        ] + serial_number,
    }
}

/// A whole frame: header, type in little-endian, payload.
pub open spec fn spec_frame(op: u16, p: Seq<u8>) -> Seq<u8> {
    spec_header() + seq![(op % 256) as u8, (op / 256) as u8] + p
}

/// The encoding of a message.
pub open spec fn spec_encode(v: MsgV) -> Seq<u8> {
    spec_frame(spec_opcode(v), spec_payload(v))
}

/// The payload of a frame whose type is `op`, decoded; `None` when the
/// payload does not fit the type.
pub open spec fn spec_decode_payload(op: u16, p: Seq<u8>) -> Option<MsgV> {
    if op == 1 {
        if p.len() == 0 {
            Some(MsgV::Handshake)
        } else {
            None
        }
    } else if op == 2 {
        if p.len() == 0 {
            Some(MsgV::SetFeatureFlags)
        } else {
            None
        }
    } else if op == 3 {
        if p.len() == 0 {
            Some(MsgV::RequestNotifications)
        } else {
            None
        }
    } else if op == 4 {
        if p.len() == 0 {
            Some(MsgV::InitExt)
        } else {
            None
        }
    } else if op == 5 {
        match spec_parse_prox_keys(p) {
            Some(key_types) => Some(MsgV::ProximityKeysRequest { key_types }),
            None => None,
        }
    } else if op == 6 {
        if p.len() >= 1 {
            match spec_cc_id_of_byte(p[0]) {
                Some(identifier) => Some(
                    MsgV::ControlCommand { identifier, value: p.subrange(1, p.len() as int) },
                ),
                None => None,
            }
        } else {
            None
        }
    } else if op == 7 {
        Some(MsgV::Rename { name: p })
    } else if op == 8 {
        if p.len() == 13 && (p[12] == 0 || p[12] == 1) {
            Some(
                MsgV::MediaInformation {
                    local: p.subrange(0, 6),
                    remote: p.subrange(6, 12),
                    playing: p[12] == 1,
                },
            )
        } else {
            None
        }
    } else if op == 9 {
        if p.len() == 6 {
            Some(MsgV::SmartRoutingShowUi { mac: p })
        } else {
            None
        }
    } else if op == 10 {
        if p.len() == 6 {
            Some(MsgV::HijackRequest { mac: p })
        } else {
            None
        }
    } else if op == 11 {
        if p.len() == 12 {
            Some(
                MsgV::MediaInformationNewDevice {
                    local: p.subrange(0, 6),
                    new_device: p.subrange(6, 12),
                },
            )
        } else {
            None
        }
    } else if op == 12 {
        if p.len() == 12 {
            Some(MsgV::AddTipiDevice { local: p.subrange(0, 6), new_device: p.subrange(6, 12) })
        } else {
            None
        }
    } else if op == 13 {
        match spec_parse_batt_items(p) {
            Some(items) => Some(MsgV::BatteryState { items }),
            None => None,
        }
    } else if op == 14 {
        if p.len() == 2 {
            match (spec_ear_status_of_byte(p[0]), spec_ear_status_of_byte(p[1])) {
                (Some(left), Some(right)) => Some(MsgV::EarDetectionState { left, right }),
                _ => None,
            }
        } else {
            None
        }
    } else if op == 15 {
        if p.len() == 1 {
            Some(MsgV::ConversationalAwarenessStatus { level: p[0] })
        } else {
            None
        }
    } else if op == 16 {
        match spec_parse_peers(p) {
            Some(peers) => Some(MsgV::ConnectedPeers { peers }),
            None => None,
        }
    } else if op == 17 {
        if p.len() == 0 {
            Some(MsgV::OwnershipToFalseRequest)
        } else {
            None
        }
    } else if op == 18 {
        if p.len() == 2 {
            match (spec_stem_kind_of_byte(p[0]), spec_stem_bud_of_byte(p[1])) {
                (Some(kind), Some(bud)) => Some(MsgV::StemPress { kind, bud }),
                _ => None,
            }
        } else {
            None
        }
    } else if op == 19 {
        if p.len() >= 2 && p[0] + 2 <= p.len() && p.len() == 2 + p[0] + p[p[0] + 1] {
            Some(
                MsgV::DeviceInfoMessage {
                    name: p.subrange(1, 1 + p[0]),
                    serial_number: p.subrange(2 + p[0], p.len() as int),
                },
            )
        } else {
            None
        }
    } else {
        None
    }
}

/// What a byte string decodes to: `None` unless it is a well-formed frame of
/// a known message type.
pub open spec fn spec_decode(b: Seq<u8>) -> Option<MsgV> {
    if b.len() >= 6 && b[0] == 4 && b[1] == 0 && b[2] == 4 && b[3] == 0 {
        spec_decode_payload((b[4] + 256 * b[5]) as u16, b.subrange(6, b.len() as int))
    } else {
        None
    }
}

/// A frame decomposes into its header, type, and payload.
proof fn lemma_frame_parts(op: u16, p: Seq<u8>)
    ensures
        spec_frame(op, p).len() == 6 + p.len(),
        spec_frame(op, p)[0] == 4,
        spec_frame(op, p)[1] == 0,
        spec_frame(op, p)[2] == 4,
        spec_frame(op, p)[3] == 0,
        (spec_frame(op, p)[4] + 256 * spec_frame(op, p)[5]) as u16 == op,
        spec_frame(op, p).subrange(6, spec_frame(op, p).len() as int) == p,
{
    let f = spec_frame(op, p);
    assert(f[4] == (op % 256) as u8);
    assert(f[5] == (op / 256) as u8);
    assert(op % 256 + 256 * (op / 256) == op);
    assert(f.subrange(6, f.len() as int) =~= p);
}

/// Battery reading lists survive the byte round trip.
proof fn lemma_batt_items_round_trip(items: Seq<BatteryInfo>)
    ensures
        spec_parse_batt_items(spec_batt_items_bytes(items)) == Some(items),
    decreases items.len(),
{
    if items.len() == 0 {
        assert(spec_batt_items_bytes(items).len() == 0);
        assert(spec_parse_batt_items(spec_batt_items_bytes(items)) =~= Some(
            Seq::<BatteryInfo>::empty(),
        ));
        assert(items =~= Seq::<BatteryInfo>::empty());
    } else {
        let e = items[0];
        let rest = items.subrange(1, items.len() as int);
        lemma_batt_items_round_trip(rest);
        let b = spec_batt_items_bytes(items);
        assert(b == spec_batt_entry_bytes(e) + spec_batt_items_bytes(rest));
        assert(b.len() >= 3);
        assert(b.subrange(0, 3) =~= spec_batt_entry_bytes(e));
        assert(b.subrange(3, b.len() as int) =~= spec_batt_items_bytes(rest));
        assert(spec_parse_batt_entry(spec_batt_entry_bytes(e)) == Some(e));
        assert(seq![e] + rest =~= items);
    }
}

/// Connected-peer lists with 6-byte MACs survive the byte round trip.
proof fn lemma_peers_round_trip(peers: Seq<PeerV>)
    requires
        forall|i: int| 0 <= i < peers.len() ==> (#[trigger] peers[i]).mac.len() == 6,
    ensures
        spec_parse_peers(spec_peers_bytes(peers)) == Some(peers),
    decreases peers.len(),
{
    if peers.len() == 0 {
        assert(spec_peers_bytes(peers).len() == 0);
        assert(peers =~= Seq::<PeerV>::empty());
    } else {
        let d = peers[0];
        let rest = peers.subrange(1, peers.len() as int);
        assert(forall|i: int| 0 <= i < rest.len() ==> (#[trigger] rest[i]).mac.len() == 6);
        lemma_peers_round_trip(rest);
        let b = spec_peers_bytes(peers);
        assert(d.mac.len() == 6);
        assert(spec_peer_bytes(d).len() == 8);
        assert(b == spec_peer_bytes(d) + spec_peers_bytes(rest));
        assert(b.len() >= 8);
        assert(b.subrange(0, 8) =~= spec_peer_bytes(d));
        assert(b.subrange(8, b.len() as int) =~= spec_peers_bytes(rest));
        assert(spec_parse_peer(spec_peer_bytes(d)).mac =~= d.mac);
        assert(spec_parse_peer(spec_peer_bytes(d)) == d);
        assert(seq![d] + rest =~= peers);
    }
}

/// Proximity-key kind lists survive the byte round trip.
proof fn lemma_prox_keys_round_trip(keys: Seq<ProximityKeyType>)
    ensures
        spec_parse_prox_keys(spec_prox_keys_bytes(keys)) == Some(keys),
    decreases keys.len(),
{
    if keys.len() == 0 {
        assert(spec_prox_keys_bytes(keys).len() == 0);
        assert(keys =~= Seq::<ProximityKeyType>::empty());
    } else {
        let k = keys[0];
        let rest = keys.subrange(1, keys.len() as int);
        lemma_prox_keys_round_trip(rest);
        let b = spec_prox_keys_bytes(keys);
        assert(b == seq![spec_prox_key_byte(k)] + spec_prox_keys_bytes(rest));
        assert(b.len() >= 1);
        assert(b[0] == spec_prox_key_byte(k));
        assert(b.subrange(1, b.len() as int) =~= spec_prox_keys_bytes(rest));
        assert(seq![k] + rest =~= keys);
    }
}

/// Law: decoding an encoded well-formed message yields the message back.
pub proof fn lemma_encode_decode(v: MsgV)
    requires
        msg_wf(v),
    ensures
        spec_decode(spec_encode(v)) == Some(v),
{
    let op = spec_opcode(v);
    let p = spec_payload(v);
    lemma_frame_parts(op, p);
    match v {
        MsgV::Handshake => {},
        MsgV::SetFeatureFlags => {},
        MsgV::RequestNotifications => {},
        MsgV::InitExt => {},
        MsgV::ProximityKeysRequest { key_types } => {
            lemma_prox_keys_round_trip(key_types);
        },
        MsgV::ControlCommand { identifier, value } => {
            assert(p[0] == spec_cc_id_byte(identifier));
            assert(p.subrange(1, p.len() as int) =~= value);
        },
        MsgV::Rename { .. } => {},
        MsgV::MediaInformation { local, remote, playing } => {
            assert(p.len() == 13);
            assert(p.subrange(0, 6) =~= local);
            assert(p.subrange(6, 12) =~= remote);
            assert(p[12] == if playing { 1u8 } else { 0u8 });
        },
        MsgV::SmartRoutingShowUi { mac } => {
            assert(p =~= mac);
        },
        MsgV::HijackRequest { mac } => {
            assert(p =~= mac);
        },
        MsgV::MediaInformationNewDevice { local, new_device } => {
            assert(p.subrange(0, 6) =~= local);
            assert(p.subrange(6, 12) =~= new_device);
        },
        MsgV::AddTipiDevice { local, new_device } => {
            assert(p.subrange(0, 6) =~= local);
            assert(p.subrange(6, 12) =~= new_device);
        },
        MsgV::BatteryState { items } => {
            lemma_batt_items_round_trip(items);
        },
        MsgV::EarDetectionState { .. } => {},
        MsgV::ConversationalAwarenessStatus { .. } => {},
        MsgV::ConnectedPeers { peers } => {
            lemma_peers_round_trip(peers);
        },
        MsgV::OwnershipToFalseRequest => {},
        MsgV::StemPress { .. } => {},
        MsgV::DeviceInfoMessage { name, serial_number } => {
            assert(p.len() == 2 + name.len() + serial_number.len());
            assert(p[0] == name.len() as u8);
            assert(p.subrange(1, 1 + name.len() as int) =~= name);
            assert(p[1 + name.len() as int] == serial_number.len() as u8);
            assert(p.subrange(2 + name.len() as int, p.len() as int) =~= serial_number);
        },
    }
}

/// An AACP message as the executable session builds and receives it.
#[derive(Clone, Debug)]
pub enum AacpMessage {
    Handshake,
    SetFeatureFlags,
    RequestNotifications,
    InitExt,
    ProximityKeysRequest { key_types: Vec<ProximityKeyType> },
    ControlCommand { identifier: ControlCommandIdentifiers, value: Vec<u8> },
    Rename { name: Vec<u8> },
    MediaInformation { local: [u8; 6], remote: [u8; 6], playing: bool },
    SmartRoutingShowUi { mac: [u8; 6] },
    HijackRequest { mac: [u8; 6] },
    MediaInformationNewDevice { local: [u8; 6], new_device: [u8; 6] },
    AddTipiDevice { local: [u8; 6], new_device: [u8; 6] },
    BatteryState { items: Vec<BatteryInfo> },
    EarDetectionState { left: EarDetectionStatus, right: EarDetectionStatus },
    ConversationalAwarenessStatus { level: u8 },
    ConnectedPeers { peers: Vec<ConnectedDevice> },
    OwnershipToFalseRequest,
    StemPress { kind: StemPressType, bud: StemPressBud },
    DeviceInfoMessage { name: Vec<u8>, serial_number: Vec<u8> },
}

impl View for AacpMessage {
    type V = MsgV;

    open spec fn view(&self) -> MsgV {
        match self {
            AacpMessage::Handshake => MsgV::Handshake,
            AacpMessage::SetFeatureFlags => MsgV::SetFeatureFlags,
            AacpMessage::RequestNotifications => MsgV::RequestNotifications,
            AacpMessage::InitExt => MsgV::InitExt,
            AacpMessage::ProximityKeysRequest { key_types } => MsgV::ProximityKeysRequest {
                key_types: key_types@,
            },
            AacpMessage::ControlCommand { identifier, value } => MsgV::ControlCommand {
                identifier: *identifier,
                value: value@,
            },
            AacpMessage::Rename { name } => MsgV::Rename { name: name@ },
            AacpMessage::MediaInformation { local, remote, playing } => MsgV::MediaInformation {
                local: local@,
                remote: remote@,
                playing: *playing,
            },
            AacpMessage::SmartRoutingShowUi { mac } => MsgV::SmartRoutingShowUi { mac: mac@ },
            AacpMessage::HijackRequest { mac } => MsgV::HijackRequest { mac: mac@ },
            AacpMessage::MediaInformationNewDevice { local, new_device } => {
                MsgV::MediaInformationNewDevice { local: local@, new_device: new_device@ }
            },
            AacpMessage::AddTipiDevice { local, new_device } => MsgV::AddTipiDevice {
                local: local@,
                new_device: new_device@,
            },
            AacpMessage::BatteryState { items } => MsgV::BatteryState { items: items@ },
            AacpMessage::EarDetectionState { left, right } => MsgV::EarDetectionState {
                left: *left,
                right: *right,
            },
            AacpMessage::ConversationalAwarenessStatus { level } => {
                MsgV::ConversationalAwarenessStatus { level: *level }
            },
            AacpMessage::ConnectedPeers { peers } => MsgV::ConnectedPeers {
                peers: peers@.map_values(|d: ConnectedDevice| d@),
            },
            AacpMessage::OwnershipToFalseRequest => MsgV::OwnershipToFalseRequest,
            AacpMessage::StemPress { kind, bud } => MsgV::StemPress { kind: *kind, bud: *bud },
            AacpMessage::DeviceInfoMessage { name, serial_number } => MsgV::DeviceInfoMessage {
                name: name@,
                serial_number: serial_number@,
            },
        }
    }
}

/// Appending a reading appends its 3 bytes.
proof fn lemma_batt_items_bytes_push(items: Seq<BatteryInfo>, e: BatteryInfo)
    ensures
        spec_batt_items_bytes(items.push(e)) == spec_batt_items_bytes(items)
            + spec_batt_entry_bytes(e),
    decreases items.len(),
{
    if items.len() == 0 {
        let s = items.push(e);
        assert(s[0] == e);
        assert(s.subrange(1, 1) =~= Seq::<BatteryInfo>::empty());
        assert(spec_batt_items_bytes(s.subrange(1, 1)) =~= Seq::<u8>::empty());
        assert(spec_batt_items_bytes(s) =~= spec_batt_entry_bytes(e));
        assert(spec_batt_items_bytes(items) =~= Seq::<u8>::empty());
    } else {
        let rest = items.subrange(1, items.len() as int);
        lemma_batt_items_bytes_push(rest, e);
        assert(items.push(e)[0] == items[0]);
        assert(items.push(e).subrange(1, items.len() as int + 1) =~= rest.push(e));
        assert(spec_batt_items_bytes(items.push(e)) =~= spec_batt_items_bytes(items)
            + spec_batt_entry_bytes(e));
    }
}

/// Appending a peer appends its 8 bytes.
proof fn lemma_peers_bytes_push(peers: Seq<PeerV>, d: PeerV)
    ensures
        spec_peers_bytes(peers.push(d)) == spec_peers_bytes(peers) + spec_peer_bytes(d),
    decreases peers.len(),
{
    if peers.len() == 0 {
        let s = peers.push(d);
        assert(s[0] == d);
        assert(s.subrange(1, 1) =~= Seq::<PeerV>::empty());
        assert(spec_peers_bytes(s.subrange(1, 1)) =~= Seq::<u8>::empty());
        assert(spec_peers_bytes(s) =~= spec_peer_bytes(d));
        assert(spec_peers_bytes(peers) =~= Seq::<u8>::empty());
    } else {
        let rest = peers.subrange(1, peers.len() as int);
        lemma_peers_bytes_push(rest, d);
        assert(peers.push(d)[0] == peers[0]);
        assert(peers.push(d).subrange(1, peers.len() as int + 1) =~= rest.push(d));
        assert(spec_peers_bytes(peers.push(d)) =~= spec_peers_bytes(peers) + spec_peer_bytes(d));
    }
}

/// Appending a key kind appends its byte.
proof fn lemma_prox_keys_bytes_push(keys: Seq<ProximityKeyType>, k: ProximityKeyType)
    ensures
        spec_prox_keys_bytes(keys.push(k)) == spec_prox_keys_bytes(keys) + seq![
            spec_prox_key_byte(k),
        ],
    decreases keys.len(),
{
    if keys.len() == 0 {
        let s = keys.push(k);
        assert(s[0] == k);
        assert(s.subrange(1, 1) =~= Seq::<ProximityKeyType>::empty());
        assert(spec_prox_keys_bytes(s.subrange(1, 1)) =~= Seq::<u8>::empty());
        assert(spec_prox_keys_bytes(s) =~= seq![spec_prox_key_byte(k)]);
        assert(spec_prox_keys_bytes(keys) =~= Seq::<u8>::empty());
    } else {
        let rest = keys.subrange(1, keys.len() as int);
        lemma_prox_keys_bytes_push(rest, k);
        assert(keys.push(k)[0] == keys[0]);
        assert(keys.push(k).subrange(1, keys.len() as int + 1) =~= rest.push(k));
        assert(spec_prox_keys_bytes(keys.push(k)) =~= spec_prox_keys_bytes(keys) + seq![
            spec_prox_key_byte(k),
        ]);
    }
}

/// Wire byte of a battery component.
fn batt_comp_byte(c: BatteryComponent) -> (b: u8)
    ensures
        b == spec_batt_comp_byte(c),
{
    match c {
        BatteryComponent::Left => 1,
        BatteryComponent::Right => 2,
        BatteryComponent::Case => 3,
        BatteryComponent::Headphone => 4,
    }
}

/// Wire byte of a battery status.
fn batt_status_byte(s: BatteryStatus) -> (b: u8)
    ensures
        b == spec_batt_status_byte(s),
{
    match s {
        BatteryStatus::Charging => 1,
        BatteryStatus::NotCharging => 2,
        BatteryStatus::InUse => 3,
    }
}

/// Wire byte of an ear-detection status.
pub fn ear_status_byte(s: EarDetectionStatus) -> (b: u8)
    ensures
        b == spec_ear_status_byte(s),
{
    match s {
        EarDetectionStatus::InEar => 1,
        EarDetectionStatus::OutOfEar => 2,
        EarDetectionStatus::InCase => 3,
    }
}

/// Encode a message into one wire frame.
pub fn encode_message(m: &AacpMessage) -> (r: Vec<u8>)
    requires
        msg_wf(m@),
    ensures
        r@ == spec_encode(m@),
{
    let op: u16 = match m {
        AacpMessage::Handshake => 1,
        AacpMessage::SetFeatureFlags => 2,
        AacpMessage::RequestNotifications => 3,
        AacpMessage::InitExt => 4,
        AacpMessage::ProximityKeysRequest { .. } => 5,
        AacpMessage::ControlCommand { .. } => 6,
        AacpMessage::Rename { .. } => 7,
        AacpMessage::MediaInformation { .. } => 8,
        AacpMessage::SmartRoutingShowUi { .. } => 9,
        AacpMessage::HijackRequest { .. } => 10,
        AacpMessage::MediaInformationNewDevice { .. } => 11,
        AacpMessage::AddTipiDevice { .. } => 12,
        AacpMessage::BatteryState { .. } => 13,
        AacpMessage::EarDetectionState { .. } => 14,
        AacpMessage::ConversationalAwarenessStatus { .. } => 15,
        AacpMessage::ConnectedPeers { .. } => 16,
        AacpMessage::OwnershipToFalseRequest => 17,
        AacpMessage::StemPress { .. } => 18,
        AacpMessage::DeviceInfoMessage { .. } => 19,
    };
    assert(op == spec_opcode(m@));
    let mut out: Vec<u8> = Vec::new();
    out.push(4);
    out.push(0);
    out.push(4);
    out.push(0);
    out.push((op % 256) as u8);
    out.push((op / 256) as u8);
    let ghost prefix = out@;
    proof {
        assert(prefix =~= spec_header() + seq![
            (spec_opcode(m@) % 256) as u8,
            (spec_opcode(m@) / 256) as u8,
        ]);
    }
    match m {
        AacpMessage::Handshake => {},
        AacpMessage::SetFeatureFlags => {},
        AacpMessage::RequestNotifications => {},
        AacpMessage::InitExt => {},
        AacpMessage::ProximityKeysRequest { key_types } => {
            let mut i: usize = 0;
            while i < key_types.len()
                invariant
                    i <= key_types.len(),
                    out@ == prefix + spec_prox_keys_bytes(key_types@.subrange(0, i as int)),
                decreases key_types.len() - i,
            {
                let b: u8 = match key_types[i] {
                    ProximityKeyType::Irk => 1,
                    ProximityKeyType::EncKey => 2,
                };
                out.push(b);
                proof {
                    lemma_prox_keys_bytes_push(
                        key_types@.subrange(0, i as int),
                        key_types@[i as int],
                    );
                    assert(key_types@.subrange(0, (i + 1) as int) =~= key_types@.subrange(
                        0,
                        i as int,
                    ).push(key_types@[i as int]));
                }
                i = i + 1;
            }
            proof {
                assert(key_types@.subrange(0, key_types@.len() as int) =~= key_types@);
            }
        },
        AacpMessage::ControlCommand { identifier, value } => {
            out.push(identifier.to_byte());
            out.extend_from_slice(value.as_slice());
            proof {
                assert(out@ =~= prefix + (seq![spec_cc_id_byte(*identifier)] + value@));
            }
        },
        AacpMessage::Rename { name } => {
            out.extend_from_slice(name.as_slice());
        },
        AacpMessage::MediaInformation { local, remote, playing } => {
            out.extend_from_slice(local.as_slice());
            out.extend_from_slice(remote.as_slice());
            out.push(if *playing {
                1
            } else {
                0
            });
            proof {
                assert(out@ =~= prefix + (local@ + remote@ + seq![
                    if *playing {
                        1u8
                    } else {
                        0u8
                    },
                ]));
            }
        },
        AacpMessage::SmartRoutingShowUi { mac } => {
            out.extend_from_slice(mac.as_slice());
        },
        AacpMessage::HijackRequest { mac } => {
            out.extend_from_slice(mac.as_slice());
        },
        AacpMessage::MediaInformationNewDevice { local, new_device } => {
            out.extend_from_slice(local.as_slice());
            out.extend_from_slice(new_device.as_slice());
            proof {
                assert(out@ =~= prefix + (local@ + new_device@));
            }
        },
        AacpMessage::AddTipiDevice { local, new_device } => {
            out.extend_from_slice(local.as_slice());
            out.extend_from_slice(new_device.as_slice());
            proof {
                assert(out@ =~= prefix + (local@ + new_device@));
            }
        },
        AacpMessage::BatteryState { items } => {
            let mut i: usize = 0;
            while i < items.len()
                invariant
                    i <= items.len(),
                    out@ == prefix + spec_batt_items_bytes(items@.subrange(0, i as int)),
                decreases items.len() - i,
            {
                let e = items[i];
                out.push(batt_comp_byte(e.component));
                out.push(e.level);
                out.push(batt_status_byte(e.status));
                proof {
                    lemma_batt_items_bytes_push(items@.subrange(0, i as int), items@[i as int]);
                    assert(items@.subrange(0, (i + 1) as int) =~= items@.subrange(0, i as int).push(
                        items@[i as int],
                    ));
                    assert(out@ =~= prefix + (spec_batt_items_bytes(items@.subrange(0, i as int))
                        + spec_batt_entry_bytes(items@[i as int])));
                }
                i = i + 1;
            }
            proof {
                assert(items@.subrange(0, items@.len() as int) =~= items@);
            }
        },
        AacpMessage::EarDetectionState { left, right } => {
            out.push(ear_status_byte(*left));
            out.push(ear_status_byte(*right));
        },
        AacpMessage::ConversationalAwarenessStatus { level } => {
            out.push(*level);
        },
        AacpMessage::ConnectedPeers { peers } => {
            let ghost peers_v = peers@.map_values(|d: ConnectedDevice| d@);
            let mut i: usize = 0;
            while i < peers.len()
                invariant
                    i <= peers.len(),
                    peers_v == peers@.map_values(|d: ConnectedDevice| d@),
                    out@ == prefix + spec_peers_bytes(peers_v.subrange(0, i as int)),
                decreases peers.len() - i,
            {
                let d = peers[i];
                out.extend_from_slice(d.mac.as_slice());
                out.push(d.info1);
                out.push(d.info2);
                proof {
                    lemma_peers_bytes_push(peers_v.subrange(0, i as int), peers_v[i as int]);
                    assert(peers_v.subrange(0, (i + 1) as int) =~= peers_v.subrange(
                        0,
                        i as int,
                    ).push(peers_v[i as int]));
                    assert(spec_peer_bytes(peers_v[i as int]) =~= d.mac@ + seq![d.info1, d.info2]);
                    assert(out@ =~= prefix + (spec_peers_bytes(peers_v.subrange(0, i as int))
                        + spec_peer_bytes(peers_v[i as int])));
                }
                i = i + 1;
            }
            proof {
                assert(peers_v.subrange(0, peers_v.len() as int) =~= peers_v);
            }
        },
        AacpMessage::OwnershipToFalseRequest => {},
        AacpMessage::StemPress { kind, bud } => {
            let kb: u8 = match kind {
                StemPressType::SinglePress => 1,
                StemPressType::DoublePress => 2,
                StemPressType::TriplePress => 3,
                StemPressType::LongPress => 4,
            };
            let bb: u8 = match bud {
                StemPressBud::Left => 1,
                StemPressBud::Right => 2,
            };
            out.push(kb);
            out.push(bb);
        },
        AacpMessage::DeviceInfoMessage { name, serial_number } => {
            out.push(name.len() as u8);
            out.extend_from_slice(name.as_slice());
            out.push(serial_number.len() as u8);
            out.extend_from_slice(serial_number.as_slice());
            proof {
                assert(out@ =~= prefix + (seq![name@.len() as u8] + name@ + seq![
                    serial_number@.len() as u8,
                ] + serial_number@));
            }
        },
    }
    proof {
        assert(out@ =~= spec_frame(spec_opcode(m@), spec_payload(m@)));
    }
    out
}

/// Parse a proximity-key list payload.
fn parse_prox_keys(p: &[u8]) -> (r: Option<Vec<ProximityKeyType>>)
    ensures
        match spec_parse_prox_keys(p@) {
            Some(ks) => r matches Some(v) && v@ == ks,
            None => r is None,
        },
{
    let n = p.len();
    let mut acc: Vec<ProximityKeyType> = Vec::new();
    let mut i: usize = 0;
    proof {
        assert(p@.subrange(0, n as int) =~= p@);
        if spec_parse_prox_keys(p@) is Some {
            assert(Seq::<ProximityKeyType>::empty() + spec_parse_prox_keys(p@)->Some_0
                =~= spec_parse_prox_keys(p@)->Some_0);
        }
    }
    while i < n
        invariant
            i <= n,
            n == p@.len(),
            spec_parse_prox_keys(p@) == (match spec_parse_prox_keys(
                p@.subrange(i as int, n as int),
            ) {
                Some(rest) => Some(acc@ + rest),
                None => None::<Seq<ProximityKeyType>>,
            }),
        decreases n - i,
    {
        let ghost suf = p@.subrange(i as int, n as int);
        let b = p[i];
        assert(suf[0] == b);
        let k = if b == 1 {
            ProximityKeyType::Irk
        } else if b == 2 {
            ProximityKeyType::EncKey
        } else {
            assert(spec_parse_prox_keys(suf) is None);
            return None;
        };
        assert(spec_prox_key_of_byte(b) == Some(k));
        let ghost acc0 = acc@;
        acc.push(k);
        proof {
            assert(suf.subrange(1, suf.len() as int) =~= p@.subrange(i + 1, n as int));
            if spec_parse_prox_keys(p@.subrange(i + 1, n as int)) is Some {
                let r2 = spec_parse_prox_keys(p@.subrange(i + 1, n as int))->Some_0;
                assert(spec_parse_prox_keys(suf) == Some(seq![k] + r2));
                assert(acc@ + r2 =~= acc0 + (seq![k] + r2)) by {
                    assert(acc@ =~= acc0 + seq![k]);
                }
            } else {
                assert(spec_parse_prox_keys(suf) is None);
            }
        }
        i = i + 1;
    }
    proof {
        assert(p@.subrange(n as int, n as int) =~= Seq::<u8>::empty());
        assert(spec_parse_prox_keys(p@) == Some(acc@ + Seq::<ProximityKeyType>::empty()));
        assert(acc@ + Seq::<ProximityKeyType>::empty() =~= acc@);
    }
    Some(acc)
}

/// Parse a battery-state payload into its readings.
fn parse_batt_items(p: &[u8]) -> (r: Option<Vec<BatteryInfo>>)
    ensures
        match spec_parse_batt_items(p@) {
            Some(items) => r matches Some(v) && v@ == items,
            None => r is None,
        },
{
    let n = p.len();
    let mut acc: Vec<BatteryInfo> = Vec::new();
    let mut i: usize = 0;
    proof {
        assert(p@.subrange(0, n as int) =~= p@);
        if spec_parse_batt_items(p@) is Some {
            assert(Seq::<BatteryInfo>::empty() + spec_parse_batt_items(p@)->Some_0
                =~= spec_parse_batt_items(p@)->Some_0);
        }
    }
    while i < n
        invariant
            i <= n,
            n == p@.len(),
            spec_parse_batt_items(p@) == (match spec_parse_batt_items(
                p@.subrange(i as int, n as int),
            ) {
                Some(rest) => Some(acc@ + rest),
                None => None::<Seq<BatteryInfo>>,
            }),
        decreases n - i,
    {
        let ghost suf = p@.subrange(i as int, n as int);
        if n - i < 3 {
            assert(spec_parse_batt_items(suf) is None);
            return None;
        }
        let cb = p[i];
        let level = p[i + 1];
        let sb = p[i + 2];
        proof {
            assert(suf.subrange(0, 3) =~= seq![cb, level, sb]);
        }
        let component = if cb == 1 {
            BatteryComponent::Left
        } else if cb == 2 {
            BatteryComponent::Right
        } else if cb == 3 {
            BatteryComponent::Case
        } else if cb == 4 {
            BatteryComponent::Headphone
        } else {
            assert(spec_parse_batt_entry(suf.subrange(0, 3)) is None);
            assert(spec_parse_batt_items(suf) is None);
            return None;
        };
        let status = if sb == 1 {
            BatteryStatus::Charging
        } else if sb == 2 {
            BatteryStatus::NotCharging
        } else if sb == 3 {
            BatteryStatus::InUse
        } else {
            assert(spec_parse_batt_entry(suf.subrange(0, 3)) is None);
            assert(spec_parse_batt_items(suf) is None);
            return None;
        };
        let e = BatteryInfo { component, level, status };
        assert(spec_parse_batt_entry(suf.subrange(0, 3)) == Some(e));
        let ghost acc0 = acc@;
        acc.push(e);
        proof {
            assert(suf.subrange(3, suf.len() as int) =~= p@.subrange(i + 3, n as int));
            if spec_parse_batt_items(p@.subrange(i + 3, n as int)) is Some {
                let r2 = spec_parse_batt_items(p@.subrange(i + 3, n as int))->Some_0;
                assert(spec_parse_batt_items(suf) == Some(seq![e] + r2));
                assert(acc@ + r2 =~= acc0 + (seq![e] + r2)) by {
                    assert(acc@ =~= acc0 + seq![e]);
                }
            } else {
                assert(spec_parse_batt_items(suf) is None);
            }
        }
        i = i + 3;
    }
    proof {
        assert(p@.subrange(n as int, n as int) =~= Seq::<u8>::empty());
        assert(spec_parse_batt_items(p@) == Some(acc@ + Seq::<BatteryInfo>::empty()));
        assert(acc@ + Seq::<BatteryInfo>::empty() =~= acc@);
    }
    Some(acc)
}

/// Parse a connected-peers payload into its peers.
fn parse_peers(p: &[u8]) -> (r: Option<Vec<ConnectedDevice>>)
    ensures
        match spec_parse_peers(p@) {
            Some(peers) => r matches Some(v) && v@.map_values(|d: ConnectedDevice| d@) == peers,
            None => r is None,
        },
{
    let n = p.len();
    let mut acc: Vec<ConnectedDevice> = Vec::new();
    let mut i: usize = 0;
    proof {
        assert(p@.subrange(0, n as int) =~= p@);
        assert(Seq::<ConnectedDevice>::empty().map_values(|d: ConnectedDevice| d@)
            =~= Seq::<PeerV>::empty());
        if spec_parse_peers(p@) is Some {
            assert(Seq::<PeerV>::empty() + spec_parse_peers(p@)->Some_0
                =~= spec_parse_peers(p@)->Some_0);
        }
    }
    while i < n
        invariant
            i <= n,
            n == p@.len(),
            spec_parse_peers(p@) == (match spec_parse_peers(p@.subrange(i as int, n as int)) {
                Some(rest) => Some(acc@.map_values(|d: ConnectedDevice| d@) + rest),
                None => None::<Seq<PeerV>>,
            }),
        decreases n - i,
    {
        let ghost suf = p@.subrange(i as int, n as int);
        if n - i < 8 {
            assert(spec_parse_peers(suf) is None);
            return None;
        }
        let mac: [u8; 6] = [p[i], p[i + 1], p[i + 2], p[i + 3], p[i + 4], p[i + 5]];
        let d = ConnectedDevice { mac, info1: p[i + 6], info2: p[i + 7] };
        proof {
            assert(suf.subrange(0, 8).subrange(0, 6) =~= mac@);
            assert(spec_parse_peer(suf.subrange(0, 8)).mac =~= mac@);
            assert(spec_parse_peer(suf.subrange(0, 8)) == d@);
        }
        let ghost acc0 = acc@;
        acc.push(d);
        proof {
            assert(suf.subrange(8, suf.len() as int) =~= p@.subrange(i + 8, n as int));
            if spec_parse_peers(p@.subrange(i + 8, n as int)) is Some {
                let r2 = spec_parse_peers(p@.subrange(i + 8, n as int))->Some_0;
                assert(spec_parse_peers(suf) == Some(seq![d@] + r2));
                assert(acc@.map_values(|x: ConnectedDevice| x@) + r2 =~= acc0.map_values(
                    |x: ConnectedDevice| x@,
                ) + (seq![d@] + r2)) by {
                    assert(acc@.map_values(|x: ConnectedDevice| x@) =~= acc0.map_values(
                        |x: ConnectedDevice| x@,
                    ) + seq![d@]);
                }
            } else {
                assert(spec_parse_peers(suf) is None);
            }
        }
        i = i + 8;
    }
    proof {
        assert(p@.subrange(n as int, n as int) =~= Seq::<u8>::empty());
        assert(spec_parse_peers(p@) == Some(
            acc@.map_values(|d: ConnectedDevice| d@) + Seq::<PeerV>::empty(),
        ));
        assert(acc@.map_values(|d: ConnectedDevice| d@) + Seq::<PeerV>::empty()
            =~= acc@.map_values(|d: ConnectedDevice| d@));
    }
    Some(acc)
}

/// Read 6 bytes out of a payload as a MAC.
fn read_mac(p: &[u8], i: usize) -> (m: [u8; 6])
    requires
        i + 6 <= p@.len(),
    ensures
        m@ == p@.subrange(i as int, i as int + 6),
{
    let m: [u8; 6] = [p[i], p[i + 1], p[i + 2], p[i + 3], p[i + 4], p[i + 5]];
    proof {
        assert(m@ =~= p@.subrange(i as int, i as int + 6));
    }
    m
}

/// Decode one wire frame; `None` for anything but a well-formed frame of a
/// known message type.
#[verifier::rlimit(60)]
pub fn decode_message(bytes: &[u8]) -> (r: Option<AacpMessage>)
    ensures
        match spec_decode(bytes@) {
            Some(v) => r matches Some(m) && m@ == v,
            None => r is None,
        },
{
    let n = bytes.len();
    if n < 6 {
        return None;
    }
    if bytes[0] != 4 || bytes[1] != 0 || bytes[2] != 4 || bytes[3] != 0 {
        return None;
    }
    let op: u16 = bytes[4] as u16 + 256 * (bytes[5] as u16);
    let p: &[u8] = slice_subrange(bytes, 6, n);
    let pn = p.len();
    if op == 1 {
        if pn == 0 {
            Some(AacpMessage::Handshake)
        } else {
            None
        }
    } else if op == 2 {
        if pn == 0 {
            Some(AacpMessage::SetFeatureFlags)
        } else {
            None
        }
    } else if op == 3 {
        if pn == 0 {
            Some(AacpMessage::RequestNotifications)
        } else {
            None
        }
    } else if op == 4 {
        if pn == 0 {
            Some(AacpMessage::InitExt)
        } else {
            None
        }
    } else if op == 5 {
        match parse_prox_keys(p) {
            Some(key_types) => Some(AacpMessage::ProximityKeysRequest { key_types }),
            None => None,
        }
    } else if op == 6 {
        if pn >= 1 {
            match ControlCommandIdentifiers::from_byte(p[0]) {
                Some(identifier) => {
                    let value = slice_to_vec(slice_subrange(p, 1, pn));
                    Some(AacpMessage::ControlCommand { identifier, value })
                },
                None => None,
            }
        } else {
            None
        }
    } else if op == 7 {
        Some(AacpMessage::Rename { name: slice_to_vec(p) })
    } else if op == 8 {
        if pn == 13 && (p[12] == 0 || p[12] == 1) {
            let local = read_mac(p, 0);
            let remote = read_mac(p, 6);
            Some(AacpMessage::MediaInformation { local, remote, playing: p[12] == 1 })
        } else {
            None
        }
    } else if op == 9 {
        if pn == 6 {
            let mac = read_mac(p, 0);
            proof {
                assert(mac@ =~= p@);
            }
            Some(AacpMessage::SmartRoutingShowUi { mac })
        } else {
            None
        }
    } else if op == 10 {
        if pn == 6 {
            let mac = read_mac(p, 0);
            proof {
                assert(mac@ =~= p@);
            }
            Some(AacpMessage::HijackRequest { mac })
        } else {
            None
        }
    } else if op == 11 {
        if pn == 12 {
            let local = read_mac(p, 0);
            let new_device = read_mac(p, 6);
            Some(AacpMessage::MediaInformationNewDevice { local, new_device })
        } else {
            None
        }
    } else if op == 12 {
        if pn == 12 {
            let local = read_mac(p, 0);
            let new_device = read_mac(p, 6);
            Some(AacpMessage::AddTipiDevice { local, new_device })
        } else {
            None
        }
    } else if op == 13 {
        match parse_batt_items(p) {
            Some(items) => Some(AacpMessage::BatteryState { items }),
            None => None,
        }
    } else if op == 14 {
        if pn == 2 {
            let left = if p[0] == 1 {
                EarDetectionStatus::InEar
            } else if p[0] == 2 {
                EarDetectionStatus::OutOfEar
            } else if p[0] == 3 {
                EarDetectionStatus::InCase
            } else {
                return None;
            };
            let right = if p[1] == 1 {
                EarDetectionStatus::InEar
            } else if p[1] == 2 {
                EarDetectionStatus::OutOfEar
            } else if p[1] == 3 {
                EarDetectionStatus::InCase
            } else {
                return None;
            };
            Some(AacpMessage::EarDetectionState { left, right })
        } else {
            None
        }
    } else if op == 15 {
        if pn == 1 {
            Some(AacpMessage::ConversationalAwarenessStatus { level: p[0] })
        } else {
            None
        }
    } else if op == 16 {
        match parse_peers(p) {
            Some(peers) => Some(AacpMessage::ConnectedPeers { peers }),
            None => None,
        }
    } else if op == 17 {
        if pn == 0 {
            Some(AacpMessage::OwnershipToFalseRequest)
        } else {
            None
        }
    } else if op == 18 {
        if pn == 2 {
            let kind = if p[0] == 1 {
                StemPressType::SinglePress
            } else if p[0] == 2 {
                StemPressType::DoublePress
            } else if p[0] == 3 {
                StemPressType::TriplePress
            } else if p[0] == 4 {
                StemPressType::LongPress
            } else {
                return None;
            };
            let bud = if p[1] == 1 {
                StemPressBud::Left
            } else if p[1] == 2 {
                StemPressBud::Right
            } else {
                return None;
            };
            Some(AacpMessage::StemPress { kind, bud })
        } else {
            None
        }
    } else if op == 19 {
        if pn >= 2 {
            let n1 = p[0] as usize;
            if n1 + 2 <= pn {
                let n2 = p[1 + n1] as usize;
                if pn == 2 + n1 + n2 {
                    let name = slice_to_vec(slice_subrange(p, 1, 1 + n1));
                    let serial_number = slice_to_vec(slice_subrange(p, 2 + n1, pn));
                    Some(AacpMessage::DeviceInfoMessage { name, serial_number })
                } else {
                    None
                }
            } else {
                None
            }
        } else {
            None
        }
    } else {
        None
    }
}

} // verus!
