//! AACP session sequencing: the handshake order and the one-in-flight
//! request discipline.
//!
//! After link-up the session sends `Handshake`, `SetFeatureFlags`,
//! `RequestNotifications`, then — only for models that need it — `InitExt`,
//! and finally the proximity-keys request.  Between consecutive packets the
//! caller waits for any inbound frame or a 500 ms gap; the machine here only
//! fixes the order, one packet per wakeup.

use crate::aacp::{
    AACPEvent, BatteryInfo, ConnectedDevice, ControlCommandIdentifiers, ControlCommandStatus,
    EarDetectionStatus, ProximityKeyType,
};
use crate::apple_models::spec_needs_init_ext;
use crate::codec::{msg_wf, AacpMessage, MsgV};
use vstd::prelude::*;

verus! {

/// The proximity-keys request the handshake ends with: IRK, then the
/// advertisement encryption key.
pub open spec fn spec_prox_request() -> MsgV {
    MsgV::ProximityKeysRequest {
        key_types: seq![ProximityKeyType::Irk, ProximityKeyType::EncKey],
    }
}

/// The packets of the handshake, in send order, for one model.
pub open spec fn spec_handshake_seq(product_id: u16) -> Seq<MsgV> {
    let base = seq![MsgV::Handshake, MsgV::SetFeatureFlags, MsgV::RequestNotifications];
    let ext: Seq<MsgV> = if spec_needs_init_ext(product_id) {
        seq![MsgV::InitExt]
    } else {
        Seq::empty()
    };
    base + ext + seq![spec_prox_request()]
}

/// Law: the handshake always opens with `Handshake`, and the proximity-keys
/// request always closes it.
pub proof fn lemma_handshake_order(product_id: u16)
    ensures
        spec_handshake_seq(product_id).len() >= 4,
        spec_handshake_seq(product_id)[0] == MsgV::Handshake,
        spec_handshake_seq(product_id)[1] == MsgV::SetFeatureFlags,
        spec_handshake_seq(product_id)[2] == MsgV::RequestNotifications,
        spec_handshake_seq(product_id).last() == spec_prox_request(),
{
}

/// Law: the handshake carries `InitExt` exactly for the models that need
/// the extended init packet.
pub proof fn lemma_init_ext_exactly_when_needed(product_id: u16)
    ensures
        (exists|i: int|
            0 <= i < spec_handshake_seq(product_id).len() && spec_handshake_seq(product_id)[i]
                == MsgV::InitExt) <==> spec_needs_init_ext(product_id),
{
    let s = spec_handshake_seq(product_id);
    if spec_needs_init_ext(product_id) {
        assert(s[3] == MsgV::InitExt);
    } else {
        assert(s.len() == 4);
        assert forall|i: int| 0 <= i < s.len() implies s[i] != MsgV::InitExt by {
            assert(s[0] == MsgV::Handshake);
            assert(s[1] == MsgV::SetFeatureFlags);
            assert(s[2] == MsgV::RequestNotifications);
            assert(s[3] == spec_prox_request());
        }
    }
}

/// Emits the handshake packets in order, one per wakeup.
pub struct HandshakeMachine {
    /// The model this handshake is for.
    pub product_id: u16,
    /// How many packets have been handed out.
    pub sent: usize,
}

impl HandshakeMachine {
    /// The machine never runs past the end of the sequence.
    pub open spec fn wf(&self) -> bool {
        self.sent <= spec_handshake_seq(self.product_id).len()
    }

    /// A handshake that has sent nothing yet.
    pub fn new(product_id: u16) -> (r: HandshakeMachine)
        ensures
            r.wf(),
            r.product_id == product_id,
            r.sent == 0,
    {
        HandshakeMachine { product_id, sent: 0 }
    }

    /// The next packet to send, or `None` once the sequence is complete.
    /// The caller sends it, then waits for an inbound frame or the 500 ms
    /// pacing bound before asking again.
    pub fn next_packet(&mut self) -> (r: Option<AacpMessage>)
        requires
            old(self).wf(),
        ensures
            final(self).wf(),
            final(self).product_id == old(self).product_id,
            old(self).sent < spec_handshake_seq(old(self).product_id).len() ==> {
                &&& (r matches Some(m) && m@ == spec_handshake_seq(old(self).product_id)[old(self).sent as int] && msg_wf(m@))
                &&& final(self).sent == old(self).sent + 1
            },
            old(self).sent >= spec_handshake_seq(old(self).product_id).len() ==> r is None
                && final(self).sent == old(self).sent,
    {
        let has_ext = crate::apple_models::needs_init_ext(self.product_id);
        let ghost s = spec_handshake_seq(self.product_id);
        let msg: AacpMessage = if self.sent == 0 {
            assert(s[0] == MsgV::Handshake);
            AacpMessage::Handshake
        } else if self.sent == 1 {
            assert(s[1] == MsgV::SetFeatureFlags);
            AacpMessage::SetFeatureFlags
        } else if self.sent == 2 {
            assert(s[2] == MsgV::RequestNotifications);
            AacpMessage::RequestNotifications
        } else if self.sent == 3 && has_ext {
            assert(s[3] == MsgV::InitExt);
            AacpMessage::InitExt
        } else if (self.sent == 3 && !has_ext) || (self.sent == 4 && has_ext) {
            let mut key_types: Vec<ProximityKeyType> = Vec::new();
            key_types.push(ProximityKeyType::Irk);
            key_types.push(ProximityKeyType::EncKey);
            proof {
                assert(key_types@ =~= seq![ProximityKeyType::Irk, ProximityKeyType::EncKey]);
                if has_ext {
                    assert(s[4] == spec_prox_request());
                } else {
                    assert(s[3] == spec_prox_request());
                }
            }
            AacpMessage::ProximityKeysRequest { key_types }
        } else {
            assert(self.sent >= s.len());
            return None;
        };
        self.sent = self.sent + 1;
        Some(msg)
    }
}

/// One step of the request/response history.
#[derive(Clone, Copy, Debug, PartialEq, Eq, Structural)]
pub enum ReqEvent {
    /// A request left this host.
    Sent,
    /// The matching response arrived.
    Responded,
}

/// Requests sent minus responses received, over a history.
pub open spec fn spec_balance(t: Seq<ReqEvent>) -> int
    decreases t.len(),
{
    if t.len() == 0 {
        0
    } else {
        spec_balance(t.drop_last()) + (if t.last() == ReqEvent::Sent {
            1int
        } else {
            -1int
        })
    }
}

/// The pacing discipline: a request goes out only when nothing is
/// outstanding, and a response is taken only when one is.
pub open spec fn spec_paced(t: Seq<ReqEvent>) -> bool {
    forall|i: int|
        0 <= i < t.len() ==> ((#[trigger] t[i]) == ReqEvent::Sent ==> spec_balance(t.take(i)) == 0)
            && (t[i] == ReqEvent::Responded ==> spec_balance(t.take(i)) == 1)
}

/// Law: under the pacing discipline, the number of sent requests minus
/// received responses is 0 or 1 after every prefix of the history.
pub proof fn lemma_single_outstanding(t: Seq<ReqEvent>, i: int)
    requires
        spec_paced(t),
        0 <= i <= t.len(),
    ensures
        0 <= spec_balance(t.take(i)) <= 1,
    decreases i,
{
    if i > 0 {
        lemma_single_outstanding(t, i - 1);
        assert(t.take(i).drop_last() =~= t.take(i - 1));
        assert(t.take(i).last() == t[i - 1]);
    } else {
        assert(t.take(0) =~= Seq::<ReqEvent>::empty());
    }
}

/// Guards the link so that at most one request is ever outstanding; the
/// full request/response history is kept as ghost state.
pub struct RequestGate {
    /// Whether a request is outstanding right now.
    pub busy: bool,
    /// The request/response history.
    pub trace: Ghost<Seq<ReqEvent>>,
}

impl RequestGate {
    /// The history obeys the pacing discipline and its balance matches the
    /// flag.
    pub open spec fn wf(&self) -> bool {
        &&& spec_paced(self.trace@)
        &&& spec_balance(self.trace@) == if self.busy {
            1int
        } else {
            0int
        }
    }

    /// A gate with no history.
    pub fn new() -> (r: RequestGate)
        ensures
            r.wf(),
            !r.busy,
            r.trace@ == Seq::<ReqEvent>::empty(),
    {
        let r = RequestGate { busy: false, trace: Ghost(Seq::empty()) };
        proof {
            assert(r.trace@.take(0) =~= Seq::<ReqEvent>::empty());
        }
        r
    }

    /// Record that a request goes out now.  Callers must wait for the
    /// previous response first.
    pub fn begin_send(&mut self)
        requires
            old(self).wf(),
            !old(self).busy,
        ensures
            final(self).wf(),
            final(self).busy,
            final(self).trace@ == old(self).trace@.push(ReqEvent::Sent),
    {
        let ghost t0 = self.trace@;
        proof {
            self.trace@ = t0.push(ReqEvent::Sent);
        }
        self.busy = true;
        proof {
            let t = self.trace@;
            assert(t.drop_last() =~= t0);
            assert forall|i: int| 0 <= i < t.len() implies ((#[trigger] t[i]) == ReqEvent::Sent
                ==> spec_balance(t.take(i)) == 0) && (t[i] == ReqEvent::Responded ==> spec_balance(
                t.take(i),
            ) == 1) by {
                assert(t.take(i).len() == i);
                if i < t.len() - 1 {
                    assert(t.take(i) =~= t0.take(i));
                    assert(t[i] == t0[i]);
                } else {
                    assert(t.take(i) =~= t0);
                }
            }
        }
    }

    /// Record that the outstanding response has been taken.
    pub fn note_response(&mut self)
        requires
            old(self).wf(),
            old(self).busy,
        ensures
            final(self).wf(),
            !final(self).busy,
            final(self).trace@ == old(self).trace@.push(ReqEvent::Responded),
    {
        let ghost t0 = self.trace@;
        proof {
            self.trace@ = t0.push(ReqEvent::Responded);
        }
        self.busy = false;
        proof {
            let t = self.trace@;
            assert(t.drop_last() =~= t0);
            assert forall|i: int| 0 <= i < t.len() implies ((#[trigger] t[i]) == ReqEvent::Sent
                ==> spec_balance(t.take(i)) == 0) && (t[i] == ReqEvent::Responded ==> spec_balance(
                t.take(i),
            ) == 1) by {
                assert(t.take(i).len() == i);
                if i < t.len() - 1 {
                    assert(t.take(i) =~= t0.take(i));
                    assert(t[i] == t0[i]);
                } else {
                    assert(t.take(i) =~= t0);
                }
            }
        }
    }

    /// Whether a new request may go out.
    pub fn can_send(&self) -> (r: bool)
        ensures
            r == !self.busy,
    {
        !self.busy
    }
}

/// The session's snapshot of the peer: what the buds last reported.
pub struct PeerState {
    /// Ear detection, left bud.
    pub ear_left: EarDetectionStatus,
    /// Ear detection, right bud.
    pub ear_right: EarDetectionStatus,
    /// The last battery readings.
    pub battery: Vec<BatteryInfo>,
    /// The peers the buds reported last.
    pub connected_peers: Vec<ConnectedDevice>,
    /// The last conversational-awareness status byte.
    pub conv_awareness_status: u8,
    /// Whether this host owns the audio connection, per the last
    /// `OwnsConnection` value.
    pub owns_connection: bool,
    /// The last listening-mode byte.
    pub listening_mode: u8,
}

impl PeerState {
    /// The snapshot before anything arrived: both buds out, nothing known.
    pub fn new() -> (r: PeerState)
        ensures
            r.ear_left == EarDetectionStatus::OutOfEar,
            r.ear_right == EarDetectionStatus::OutOfEar,
            r.battery@.len() == 0,
            r.connected_peers@.len() == 0,
            r.conv_awareness_status == 0,
            !r.owns_connection,
            r.listening_mode == 0,
    {
        PeerState {
            ear_left: EarDetectionStatus::OutOfEar,
            ear_right: EarDetectionStatus::OutOfEar,
            battery: Vec::new(),
            connected_peers: Vec::new(),
            conv_awareness_status: 0,
            owns_connection: false,
            listening_mode: 0,
        }
    }

    /// Fold one inbound message into the snapshot and name the event it
    /// raises on the session bus; outbound message kinds raise nothing and
    /// change nothing.
    pub fn apply_message(&mut self, m: &AacpMessage) -> (ev: Option<AACPEvent>)
        ensures
            m matches AacpMessage::BatteryState { items } ==> {
                &&& final(self).battery@ == items@
                &&& (ev matches Some(AACPEvent::BatteryInfo(v)) && v@ == items@)
                &&& *final(self) == (PeerState { battery: final(self).battery, ..*old(self) })
            },
            m matches AacpMessage::EarDetectionState { left, right } ==> {
                &&& final(self).ear_left == *left && final(self).ear_right == *right
                &&& (ev matches Some(
                    AACPEvent::EarDetection { old_left, old_right, new_left, new_right },
                ) && old_left == old(self).ear_left && old_right == old(self).ear_right && new_left
                    == *left && new_right == *right)
                &&& *final(self) == (PeerState {
                    ear_left: final(self).ear_left,
                    ear_right: final(self).ear_right,
                    ..*old(self)
                })
            },
            m matches AacpMessage::ConversationalAwarenessStatus { level } ==> {
                &&& final(self).conv_awareness_status == *level
                &&& ev == Some(AACPEvent::ConversationalAwareness(*level))
                &&& *final(self) == (PeerState {
                    conv_awareness_status: *level,
                    ..*old(self)
                })
            },
            m matches AacpMessage::ConnectedPeers { peers } ==> {
                &&& final(self).connected_peers@ == peers@
                &&& (ev matches Some(AACPEvent::ConnectedDevices(old_list, new_list)) && old_list@
                    == old(self).connected_peers@ && new_list@ == peers@)
                &&& *final(self) == (PeerState {
                    connected_peers: final(self).connected_peers,
                    ..*old(self)
                })
            },
            m matches AacpMessage::OwnershipToFalseRequest ==> (*final(self) == *old(self) && ev
                matches Some(AACPEvent::OwnershipToFalseRequest)),
            m matches AacpMessage::StemPress { kind, bud } ==> (*final(self) == *old(self) && ev
                == Some(AACPEvent::StemPress(*kind, *bud))),
            m matches AacpMessage::ControlCommand { identifier, value } ==> {
                &&& (*identifier == ControlCommandIdentifiers::OwnsConnection && value@.len() >= 1
                    ==> final(self).owns_connection == (value@[0] != 0))
                &&& (*identifier == ControlCommandIdentifiers::ListeningMode && value@.len() >= 1
                    ==> final(self).listening_mode == value@[0])
                &&& (ev matches Some(AACPEvent::ControlCommand(c)) && c.identifier == *identifier
                    && c.value@ == value@)
                &&& *final(self) == (PeerState {
                    owns_connection: final(self).owns_connection,
                    listening_mode: final(self).listening_mode,
                    ..*old(self)
                })
                &&& (*identifier != ControlCommandIdentifiers::OwnsConnection ==> final(self)
                    .owns_connection == old(self).owns_connection)
                &&& (*identifier != ControlCommandIdentifiers::ListeningMode ==> final(self)
                    .listening_mode == old(self).listening_mode)
                &&& (value@.len() == 0 ==> *final(self) == *old(self))
            },
            m matches AacpMessage::DeviceInfoMessage { name, serial_number } ==> (*final(self)
                == *old(self) && (ev matches Some(AACPEvent::DeviceInfo { name: n, serial_number: s })
                && n@ == name@ && s@ == serial_number@)),
            !(m matches AacpMessage::BatteryState { .. } || m matches
                AacpMessage::EarDetectionState { .. } || m matches
                AacpMessage::ConversationalAwarenessStatus { .. } || m matches
                AacpMessage::ConnectedPeers { .. } || m matches AacpMessage::OwnershipToFalseRequest
                || m matches AacpMessage::StemPress { .. } || m matches AacpMessage::ControlCommand {
                ..
            } || m matches AacpMessage::DeviceInfoMessage { .. }) ==> (*final(self) == *old(self)
                && ev is None),
    {
        match m {
            AacpMessage::BatteryState { items } => {
                let copy = clone_battery(items);
                self.battery = clone_battery(items);
                Some(AACPEvent::BatteryInfo(copy))
            },
            AacpMessage::EarDetectionState { left, right } => {
                let old_left = self.ear_left;
                let old_right = self.ear_right;
                self.ear_left = *left;
                self.ear_right = *right;
                Some(
                    AACPEvent::EarDetection {
                        old_left,
                        old_right,
                        new_left: *left,
                        new_right: *right,
                    },
                )
            },
            AacpMessage::ConversationalAwarenessStatus { level } => {
                self.conv_awareness_status = *level;
                Some(AACPEvent::ConversationalAwareness(*level))
            },
            AacpMessage::ConnectedPeers { peers } => {
                let old_list = clone_peers(&self.connected_peers);
                let new_list = clone_peers(peers);
                self.connected_peers = clone_peers(peers);
                Some(AACPEvent::ConnectedDevices(old_list, new_list))
            },
            AacpMessage::OwnershipToFalseRequest => Some(AACPEvent::OwnershipToFalseRequest),
            AacpMessage::StemPress { kind, bud } => Some(AACPEvent::StemPress(*kind, *bud)),
            AacpMessage::ControlCommand { identifier, value } => {
                if value.len() >= 1 {
                    match identifier {
                        ControlCommandIdentifiers::OwnsConnection => {
                            self.owns_connection = value[0] != 0;
                        },
                        ControlCommandIdentifiers::ListeningMode => {
                            self.listening_mode = value[0];
                        },
                        _ => {},
                    }
                }
                Some(
                    AACPEvent::ControlCommand(
                        ControlCommandStatus {
                            identifier: *identifier,
                            value: clone_bytes(value),
                        },
                    ),
                )
            },
            AacpMessage::DeviceInfoMessage { name, serial_number } => Some(
                AACPEvent::DeviceInfo {
                    name: clone_bytes(name),
                    serial_number: clone_bytes(serial_number),
                },
            ),
            _ => None,
        }
    }
}

/// Copy a battery reading list.
fn clone_battery(v: &Vec<BatteryInfo>) -> (r: Vec<BatteryInfo>)
    ensures
        r@ == v@,
{
    let mut r: Vec<BatteryInfo> = Vec::new();
    let mut i: usize = 0;
    while i < v.len()
        invariant
            i <= v@.len(),
            r@ == v@.subrange(0, i as int),
        decreases v@.len() - i,
    {
        r.push(v[i]);
        proof {
            assert(v@.subrange(0, (i + 1) as int) =~= v@.subrange(0, i as int).push(v@[i as int]));
        }
        i = i + 1;
    }
    proof {
        assert(v@.subrange(0, v@.len() as int) =~= v@);
    }
    r
}

/// Copy a connected-peers list.
fn clone_peers(v: &Vec<ConnectedDevice>) -> (r: Vec<ConnectedDevice>)
    ensures
        r@ == v@,
{
    let mut r: Vec<ConnectedDevice> = Vec::new();
    let mut i: usize = 0;
    while i < v.len()
        invariant
            i <= v@.len(),
            r@ == v@.subrange(0, i as int),
        decreases v@.len() - i,
    {
        r.push(v[i]);
        proof {
            assert(v@.subrange(0, (i + 1) as int) =~= v@.subrange(0, i as int).push(v@[i as int]));
        }
        i = i + 1;
    }
    proof {
        assert(v@.subrange(0, v@.len() as int) =~= v@);
    }
    r
}

/// Copy a byte string.
fn clone_bytes(v: &Vec<u8>) -> (r: Vec<u8>)
    ensures
        r@ == v@,
{
    let mut r: Vec<u8> = Vec::new();
    r.extend_from_slice(v.as_slice());
    proof {
        assert(r@ =~= v@);
    }
    r
}

/// One live AACP device session: handshake progress, request pacing, the
/// peer snapshot, and the media coordinator, created on link-up and
/// dropped on link-down.
pub struct AirPodsDevice {
    /// Handshake progress for this model.
    pub handshake: HandshakeMachine,
    /// The one-in-flight request gate.
    pub gate: RequestGate,
    /// What the peer last reported.
    pub peer_state: PeerState,
    /// The media/ownership coordinator for this session.
    pub coordinator: crate::coordinator::CoordinatorState,
}

impl AirPodsDevice {
    /// A fresh session for one model: nothing sent, nothing outstanding,
    /// nothing known of the peer.
    pub fn new(product_id: u16) -> (r: AirPodsDevice)
        ensures
            r.handshake.wf(),
            r.handshake.product_id == product_id,
            r.handshake.sent == 0,
            r.gate.wf(),
            !r.gate.busy,
            r.peer_state.ear_left == EarDetectionStatus::OutOfEar,
            r.peer_state.ear_right == EarDetectionStatus::OutOfEar,
            r.peer_state.battery@.len() == 0,
            r.peer_state.connected_peers@.len() == 0,
            !r.peer_state.owns_connection,
            !r.coordinator.is_playing,
            r.coordinator.paused_by_us@.len() == 0,
    {
        AirPodsDevice {
            handshake: HandshakeMachine::new(product_id),
            gate: RequestGate::new(),
            peer_state: PeerState::new(),
            coordinator: crate::coordinator::CoordinatorState::new(),
        }
    }
}

} // verus!