//! IPC data model and framing: the event and command types exchanged with
//! external UIs, the length-prefixed wire framing, and the latest-wins
//! snapshot kept for late subscribers.

use crate::aacp::{AACPEvent, ControlCommandIdentifiers};
use vstd::prelude::*;

verus! {

/// The largest IPC message accepted: 16 MiB.
pub const IPC_MAX_MSG: usize = 16777216;

/// A command from an external UI to one device.
#[derive(Clone, Debug)]
pub enum DeviceCommand {
    ControlCommand(ControlCommandIdentifiers, Vec<u8>),
    Rename(String),
}

/// An event of the device universe, as external UIs see it.
#[derive(Clone, Debug)]
pub enum AppEvent {
    DeviceConnected { mac: String, name: String, is_nothing: bool, product_id: u16 },
    DeviceDisconnected(String),
    AACPEvent(String, AACPEvent),
    AudioUnavailable,
}

/// The four length bytes that precede an IPC message: its length in
/// big-endian.
pub open spec fn spec_ipc_header(n: int) -> Seq<u8> {
    seq![
        ((n / 0x1000000) % 256) as u8,
        ((n / 0x10000) % 256) as u8,
        ((n / 0x100) % 256) as u8,
        (n % 256) as u8,
    ]
}

/// Frame one message for the socket: 4 length bytes, then the payload.
pub fn frame_ipc_message(data: &[u8]) -> (r: Vec<u8>)
    requires
        data@.len() <= IPC_MAX_MSG,
    ensures
        r@ == spec_ipc_header(data@.len() as int) + data@,
{
    let n = data.len();
    let mut out: Vec<u8> = Vec::new();
    out.push(((n / 0x1000000) % 256) as u8);
    out.push(((n / 0x10000) % 256) as u8);
    out.push(((n / 0x100) % 256) as u8);
    out.push((n % 256) as u8);
    out.extend_from_slice(data);
    proof {
        assert(out@ =~= spec_ipc_header(data@.len() as int) + data@);
    }
    out
}

/// The length a 4-byte big-endian prefix names.
pub open spec fn spec_ipc_len(b: Seq<u8>) -> int {
    b[0] * 0x1000000 + b[1] * 0x10000 + b[2] * 0x100 + b[3]
}

/// Read a length prefix; `None` when the named length is over the 16 MiB
/// bound.
pub fn parse_ipc_len(b: &[u8; 4]) -> (r: Option<usize>)
    ensures
        r is Some <==> spec_ipc_len(b@) <= IPC_MAX_MSG,
        r matches Some(n) ==> n == spec_ipc_len(b@),
{
    let n: usize = (b[0] as usize) * 0x1000000 + (b[1] as usize) * 0x10000 + (b[2] as usize)
        * 0x100 + (b[3] as usize);
    if n <= IPC_MAX_MSG {
        Some(n)
    } else {
        None
    }
}

/// Law: the length prefix written for a message reads back as its length.
pub proof fn lemma_ipc_len_round_trip(n: int)
    requires
        0 <= n <= IPC_MAX_MSG,
    ensures
        spec_ipc_len(spec_ipc_header(n)) == n,
{
    assert(spec_ipc_len(spec_ipc_header(n)) == n) by (nonlinear_arith)
        requires
            0 <= n <= 16777216,
    ;
}

/// Whether an existing snapshot entry survives the arrival of a new event:
/// a connect or disconnect sweeps out the device's history, and a battery,
/// control-command, or device-info event replaces its own kind.
pub open spec fn spec_keep(e: AppEvent, ev: AppEvent) -> bool {
    match ev {
        AppEvent::DeviceConnected { mac, .. } => match e {
            AppEvent::DeviceConnected { mac: m, .. } => m@ != mac@,
            AppEvent::AACPEvent(m, _) => m@ != mac@,
            _ => true,
        },
        AppEvent::DeviceDisconnected(mac) => match e {
            AppEvent::DeviceConnected { mac: m, .. } => m@ != mac@,
            AppEvent::AACPEvent(m, _) => m@ != mac@,
            AppEvent::DeviceDisconnected(m) => m@ != mac@,
            _ => true,
        },
        AppEvent::AACPEvent(mac, ae) => match ae {
            AACPEvent::BatteryInfo(_) => match e {
                AppEvent::AACPEvent(m, AACPEvent::BatteryInfo(_)) => m@ != mac@,
                _ => true,
            },
            AACPEvent::ControlCommand(cmd) => match e {
                AppEvent::AACPEvent(m, AACPEvent::ControlCommand(c)) => m@ != mac@ || c.identifier
                    != cmd.identifier,
                _ => true,
            },
            AACPEvent::DeviceInfo { .. } => match e {
                AppEvent::AACPEvent(m, AACPEvent::DeviceInfo { .. }) => m@ != mac@,
                _ => true,
            },
            _ => true,
        },
        AppEvent::AudioUnavailable => true,
    }
}

/// Whether the new event itself joins the snapshot: disconnects leave
/// nothing behind, and the audio-unavailable flag appears once.
pub open spec fn spec_appends(s: Seq<AppEvent>, ev: AppEvent) -> bool {
    match ev {
        AppEvent::DeviceConnected { .. } => true,
        AppEvent::DeviceDisconnected(_) => false,
        AppEvent::AACPEvent(_, _) => true,
        AppEvent::AudioUnavailable => !(exists|i: int|
            0 <= i < s.len() && (#[trigger] s[i]) matches AppEvent::AudioUnavailable),
    }
}

/// The snapshot after one event: the survivors, then the event itself when
/// it joins.
pub open spec fn spec_update_snapshot(s: Seq<AppEvent>, ev: AppEvent) -> Seq<AppEvent> {
    s.filter(|e: AppEvent| spec_keep(e, ev)) + (if spec_appends(s, ev) {
        seq![ev]
    } else {
        Seq::empty()
    })
}

/// Whether an existing entry survives the arrival of `ev`.
fn event_keep(e: &AppEvent, ev: &AppEvent) -> (r: bool)
    ensures
        r == spec_keep(*e, *ev),
{
    match ev {
        AppEvent::DeviceConnected { mac, .. } => match e {
            AppEvent::DeviceConnected { mac: m, .. } => *m != *mac,
            AppEvent::AACPEvent(m, _) => *m != *mac,
            _ => true,
        },
        AppEvent::DeviceDisconnected(mac) => match e {
            AppEvent::DeviceConnected { mac: m, .. } => *m != *mac,
            AppEvent::AACPEvent(m, _) => *m != *mac,
            AppEvent::DeviceDisconnected(m) => *m != *mac,
            _ => true,
        },
        AppEvent::AACPEvent(mac, ae) => match ae {
            AACPEvent::BatteryInfo(_) => match e {
                AppEvent::AACPEvent(m, AACPEvent::BatteryInfo(_)) => *m != *mac,
                _ => true,
            },
            AACPEvent::ControlCommand(cmd) => match e {
                AppEvent::AACPEvent(m, AACPEvent::ControlCommand(c)) => *m != *mac || c.identifier
                    != cmd.identifier,
                _ => true,
            },
            AACPEvent::DeviceInfo { .. } => match e {
                AppEvent::AACPEvent(m, AACPEvent::DeviceInfo { .. }) => *m != *mac,
                _ => true,
            },
            _ => true,
        },
        AppEvent::AudioUnavailable => true,
    }
}

/// Fold one event into the snapshot kept for late IPC subscribers: the
/// per-device latest-wins projection of the event stream.
pub fn update_snapshot(snapshot: &mut Vec<AppEvent>, event: AppEvent)
    ensures
        final(snapshot)@ == spec_update_snapshot(old(snapshot)@, event),
{
    let ghost s0 = snapshot@;
    let ghost pred = |e: AppEvent| spec_keep(e, event);
    let append = match &event {
        AppEvent::DeviceConnected { .. } => true,
        AppEvent::DeviceDisconnected(_) => false,
        AppEvent::AACPEvent(_, _) => true,
        AppEvent::AudioUnavailable => !has_audio_unavailable(snapshot),
    };
    assert(append == spec_appends(s0, event));
    let mut i: usize = 0;
    let ghost k: int = 0;
    proof {
        reveal(Seq::filter);
        assert(s0.subrange(0, 0).filter(pred) =~= Seq::<AppEvent>::empty());
        assert(snapshot@ =~= s0.subrange(0, 0).filter(pred) + s0.subrange(0, s0.len() as int));
    }
    while i < snapshot.len()
        invariant
            0 <= k <= s0.len(),
            i == s0.subrange(0, k).filter(pred).len(),
            i <= snapshot@.len(),
            pred == |e: AppEvent| spec_keep(e, event),
            snapshot@ == s0.subrange(0, k).filter(pred) + s0.subrange(k, s0.len() as int),
        decreases s0.len() - k,
    {
        let ghost pre = s0.subrange(0, k).filter(pred);
        proof {
            assert(snapshot@[i as int] == s0[k]);
            assert(s0.subrange(0, k + 1).filter(pred) == if pred(s0[k]) {
                pre.push(s0[k])
            } else {
                pre
            }) by {
                reveal(Seq::filter);
                assert(s0.subrange(0, k + 1).drop_last() =~= s0.subrange(0, k));
                assert(s0.subrange(0, k + 1).last() == s0[k]);
            }
        }
        let keep = event_keep(&snapshot[i], &event);
        if keep {
            i = i + 1;
            proof {
                k = k + 1;
                assert(snapshot@ =~= s0.subrange(0, k).filter(pred) + s0.subrange(
                    k,
                    s0.len() as int,
                ));
            }
        } else {
            snapshot.remove(i);
            proof {
                k = k + 1;
                assert(snapshot@ =~= s0.subrange(0, k).filter(pred) + s0.subrange(
                    k,
                    s0.len() as int,
                ));
            }
        }
    }
    proof {
        assert(s0.subrange(0, s0.len() as int) =~= s0);
        assert(s0.subrange(s0.len() as int, s0.len() as int) =~= Seq::<AppEvent>::empty());
        assert(snapshot@ =~= s0.filter(pred));
    }
    if append {
        snapshot.push(event);
        proof {
            assert(snapshot@ =~= spec_update_snapshot(s0, event));
        }
    } else {
        proof {
            assert(snapshot@ =~= spec_update_snapshot(s0, event));
        }
    }
}

/// Whether the snapshot already carries the audio-unavailable flag.
fn has_audio_unavailable(snapshot: &Vec<AppEvent>) -> (r: bool)
    ensures
        r == exists|i: int|
            0 <= i < snapshot@.len() && (#[trigger] snapshot@[i]) matches AppEvent::AudioUnavailable,
{
    let mut i: usize = 0;
    while i < snapshot.len()
        invariant
            i <= snapshot@.len(),
            forall|j: int|
                0 <= j < i ==> !((#[trigger] snapshot@[j]) matches AppEvent::AudioUnavailable),
        decreases snapshot@.len() - i,
    {
        if matches!(&snapshot[i], AppEvent::AudioUnavailable) {
            return true;
        }
        i = i + 1;
    }
    false
}

} // verus!
