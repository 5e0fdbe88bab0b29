//! The ATT client wire format: request PDUs, notification enablement, and
//! the classification of inbound packets.
//!
//! ATT guarantees at most one request in flight; the session enforces that
//! with the request gate, and the receive side routes notifications by
//! handle while anything else answers the outstanding request.

use vstd::prelude::*;
use vstd::slice::slice_to_vec;

verus! {

/// ATT opcode: read request.
pub const ATT_OP_READ_REQUEST: u8 = 0x0A;

/// ATT opcode: write request.
pub const ATT_OP_WRITE_REQUEST: u8 = 0x12;

/// ATT opcode: write response.
pub const ATT_OP_WRITE_RESPONSE: u8 = 0x13;

/// ATT opcode: handle-value notification.
pub const ATT_OP_HANDLE_VALUE_NTF: u8 = 0x1B;

/// The attribute handles the client reads, writes, or listens on.
#[derive(Clone, Copy, Debug, PartialEq, Eq, Structural)]
pub enum ATTHandles {
    AirPodsTransparency,
    AirPodsLoudSoundReduction,
    AirPodsHearingAid,
    NothingEverything,
    NothingEverythingRead,
}

/// The numeric value of an attribute handle.
pub open spec fn spec_att_handle(h: ATTHandles) -> u16 {
    match h {
        ATTHandles::AirPodsTransparency => 0x18,
        ATTHandles::AirPodsLoudSoundReduction => 0x1B,
        ATTHandles::AirPodsHearingAid => 0x2A,
        ATTHandles::NothingEverything => 0x8002,
        ATTHandles::NothingEverythingRead => 0x8005,
    }
}

impl ATTHandles {
    /// The numeric value of this handle.
    pub fn value(&self) -> (r: u16)
        ensures
            r == spec_att_handle(*self),
    {
        match self {
            ATTHandles::AirPodsTransparency => 0x18,
            ATTHandles::AirPodsLoudSoundReduction => 0x1B,
            ATTHandles::AirPodsHearingAid => 0x2A,
            ATTHandles::NothingEverything => 0x8002,
            ATTHandles::NothingEverythingRead => 0x8005,
        }
    }
}

/// The client-characteristic-configuration descriptors: one past each
/// notifying AirPods handle.
#[derive(Clone, Copy, Debug, PartialEq, Eq, Structural)]
pub enum ATTCCCDHandles {
    Transparency,
    LoudSoundReduction,
    HearingAid,
}

/// The numeric value of a CCCD handle: its attribute handle plus one.
pub open spec fn spec_cccd_handle(h: ATTCCCDHandles) -> u16 {
    match h {
        ATTCCCDHandles::Transparency => 0x19,
        ATTCCCDHandles::LoudSoundReduction => 0x1C,
        ATTCCCDHandles::HearingAid => 0x2B,
    }
}

impl ATTCCCDHandles {
    /// The numeric value of this descriptor handle.
    pub fn value(&self) -> (r: u16)
        ensures
            r == spec_cccd_handle(*self),
            r == spec_att_handle(
                match self {
                    ATTCCCDHandles::Transparency => ATTHandles::AirPodsTransparency,
                    ATTCCCDHandles::LoudSoundReduction => ATTHandles::AirPodsLoudSoundReduction,
                    ATTCCCDHandles::HearingAid => ATTHandles::AirPodsHearingAid,
                },
            ) + 1,
    {
        match self {
            ATTCCCDHandles::Transparency => 0x19,
            ATTCCCDHandles::LoudSoundReduction => 0x1C,
            ATTCCCDHandles::HearingAid => 0x2B,
        }
    }

    /// The descriptor of a notifying attribute handle; the Nothing handles
    /// have none.
    pub fn from_handle(handle: ATTHandles) -> (r: Option<ATTCCCDHandles>)
        ensures
            handle == ATTHandles::AirPodsTransparency ==> r == Some(ATTCCCDHandles::Transparency),
            handle == ATTHandles::AirPodsLoudSoundReduction ==> r == Some(
                ATTCCCDHandles::LoudSoundReduction,
            ),
            handle == ATTHandles::AirPodsHearingAid ==> r == Some(ATTCCCDHandles::HearingAid),
            handle == ATTHandles::NothingEverything || handle == ATTHandles::NothingEverythingRead
                ==> r is None,
    {
        match handle {
            ATTHandles::AirPodsTransparency => Some(ATTCCCDHandles::Transparency),
            ATTHandles::AirPodsLoudSoundReduction => Some(ATTCCCDHandles::LoudSoundReduction),
            ATTHandles::AirPodsHearingAid => Some(ATTCCCDHandles::HearingAid),
            ATTHandles::NothingEverything => None,
            ATTHandles::NothingEverythingRead => None,
        }
    }
}

/// A read-request PDU: the opcode and the handle in little-endian.
pub open spec fn spec_read_request(handle: u16) -> Seq<u8> {
    seq![ATT_OP_READ_REQUEST, (handle % 256) as u8, (handle / 256) as u8]
}

/// A write-request PDU: the opcode, the handle in little-endian, and the
/// value.
pub open spec fn spec_write_request(handle: u16, value: Seq<u8>) -> Seq<u8> {
    seq![ATT_OP_WRITE_REQUEST, (handle % 256) as u8, (handle / 256) as u8] + value
}

/// Build a read-request PDU for one handle.
pub fn build_read_request(handle: u16) -> (r: Vec<u8>)
    ensures
        r@ == spec_read_request(handle),
{
    let mut pdu: Vec<u8> = Vec::new();
    pdu.push(ATT_OP_READ_REQUEST);
    pdu.push((handle % 256) as u8);
    pdu.push((handle / 256) as u8);
    proof {
        assert(pdu@ =~= spec_read_request(handle));
    }
    pdu
}

/// Build a write-request PDU for one handle and value.
pub fn build_write_request(handle: u16, value: &[u8]) -> (r: Vec<u8>)
    ensures
        r@ == spec_write_request(handle, value@),
{
    let mut pdu: Vec<u8> = Vec::new();
    pdu.push(ATT_OP_WRITE_REQUEST);
    pdu.push((handle % 256) as u8);
    pdu.push((handle / 256) as u8);
    pdu.extend_from_slice(value);
    proof {
        assert(pdu@ =~= spec_write_request(handle, value@));
    }
    pdu
}

/// The write that enables notifications on a handle's descriptor: value
/// `0x0100` in little-endian to the handle one past the attribute.
pub fn build_enable_notifications(cccd: ATTCCCDHandles) -> (r: Vec<u8>)
    ensures
        r@ == spec_write_request(spec_cccd_handle(cccd), seq![1u8, 0u8]),
{
    let mut value: Vec<u8> = Vec::new();
    value.push(1);
    value.push(0);
    proof {
        assert(value@ =~= seq![1u8, 0u8]);
    }
    build_write_request(cccd.value(), value.as_slice())
}

/// An inbound ATT packet, classified.
#[derive(Clone, Debug)]
pub enum AttInbound {
    /// A handle-value notification: fan the value out to this handle's
    /// listeners.
    Notification { handle: u16, value: Vec<u8> },
    /// A write response: the outstanding request completes with an empty
    /// payload.
    WriteResponse,
    /// Any other packet: its payload past the opcode answers the
    /// outstanding request.
    Response { payload: Vec<u8> },
}

/// Classify one inbound ATT packet.  Empty packets and truncated
/// notifications mean nothing and are dropped, never an error.
pub fn classify_inbound(data: &[u8]) -> (r: Option<AttInbound>)
    ensures
        r is None <==> (data@.len() == 0 || (data@[0] == ATT_OP_HANDLE_VALUE_NTF && data@.len()
            < 3)),
        r matches Some(AttInbound::Notification { handle, value }) ==> data@.len() >= 3 && data@[0]
            == ATT_OP_HANDLE_VALUE_NTF && handle == data@[1] + 256 * data@[2] && value@
            == data@.subrange(3, data@.len() as int),
        r == Some(AttInbound::WriteResponse) <==> (data@.len() >= 1 && data@[0]
            == ATT_OP_WRITE_RESPONSE),
        r matches Some(AttInbound::Response { payload }) ==> data@.len() >= 1 && data@[0]
            != ATT_OP_HANDLE_VALUE_NTF && data@[0] != ATT_OP_WRITE_RESPONSE && payload@
            == data@.subrange(1, data@.len() as int),
{
    let n = data.len();
    if n == 0 {
        return None;
    }
    if data[0] == ATT_OP_HANDLE_VALUE_NTF {
        if n >= 3 {
            let handle: u16 = data[1] as u16 + 256 * (data[2] as u16);
            let value = slice_to_vec(vstd::slice::slice_subrange(data, 3, n));
            Some(AttInbound::Notification { handle, value })
        } else {
            None
        }
    } else if data[0] == ATT_OP_WRITE_RESPONSE {
        Some(AttInbound::WriteResponse)
    } else {
        let payload = slice_to_vec(vstd::slice::slice_subrange(data, 1, n));
        Some(AttInbound::Response { payload })
    }
}

} // verus!
