//! The media/ownership coordinator: ear-detection pause and resume,
//! playback-driven ownership takeover, ownership loss, stem presses, and
//! conversational-awareness volume ducking.
//!
//! Every reaction is a pure step from the coordinator's state and the
//! event's data to a new state and a set of outward actions; the D-Bus and
//! audio-server calls that carry the actions out live with the caller.

use crate::aacp::{ConnectedDevice, ControlCommandIdentifiers, StemPressType};
use crate::codec::{msg_wf, AacpMessage, MsgV, PeerV};
use vstd::prelude::*;
use vstd::string::StrSliceExecFns;

verus! {

/// Per-session coordinator state.
pub struct CoordinatorState {
    /// Whether some media player reported `Playing` at the last poll.
    pub is_playing: bool,
    /// Service names paused by this coordinator, to resume later.
    pub paused_by_us: Vec<String>,
    /// Left bud in ear, as of the last ear-detection event.
    pub old_left_in_ear: bool,
    /// Right bud in ear, as of the last ear-detection event.
    pub old_right_in_ear: bool,
    /// Media was already playing when the buds were inserted.
    pub user_played_the_media: bool,
    /// The last pause was ours.
    pub i_paused_the_media: bool,
    /// React to ear-detection events at all.
    pub ear_detection_enabled: bool,
    /// Turn the audio profile off when no bud is worn.
    pub disconnect_when_not_wearing: bool,
    /// Sink volume before conversational awareness lowered it.
    pub conv_original_volume: Option<u32>,
    /// A conversation is in progress.
    pub conv_started: bool,
}

/// Spec-level form of the coordinator state; service names are character
/// sequences.
pub struct CoordV {
    pub is_playing: bool,
    pub paused_by_us: Seq<Seq<char>>,
    pub old_left_in_ear: bool,
    pub old_right_in_ear: bool,
    pub user_played_the_media: bool,
    pub i_paused_the_media: bool,
    pub ear_detection_enabled: bool,
    pub disconnect_when_not_wearing: bool,
    pub conv_original_volume: Option<u32>,
    pub conv_started: bool,
}

impl View for CoordinatorState {
    type V = CoordV;

    open spec fn view(&self) -> CoordV {
        CoordV {
            is_playing: self.is_playing,
            paused_by_us: self.paused_by_us@.map_values(|s: String| s@),
            old_left_in_ear: self.old_left_in_ear,
            old_right_in_ear: self.old_right_in_ear,
            user_played_the_media: self.user_played_the_media,
            i_paused_the_media: self.i_paused_the_media,
            ear_detection_enabled: self.ear_detection_enabled,
            disconnect_when_not_wearing: self.disconnect_when_not_wearing,
            conv_original_volume: self.conv_original_volume,
            conv_started: self.conv_started,
        }
    }
}

impl CoordinatorState {
    /// The state a fresh session starts from: nothing playing, nothing
    /// paused, no bud worn, ear reactions on, profile off when unworn.
    pub fn new() -> (r: CoordinatorState)
        ensures
            !r.is_playing,
            r.paused_by_us@.len() == 0,
            !r.old_left_in_ear,
            !r.old_right_in_ear,
            !r.user_played_the_media,
            !r.i_paused_the_media,
            r.ear_detection_enabled,
            r.disconnect_when_not_wearing,
            r.conv_original_volume is None,
            !r.conv_started,
    {
        CoordinatorState {
            is_playing: false,
            paused_by_us: Vec::new(),
            old_left_in_ear: false,
            old_right_in_ear: false,
            user_played_the_media: false,
            i_paused_the_media: false,
            ear_detection_enabled: true,
            disconnect_when_not_wearing: true,
            conv_original_volume: None,
            conv_started: false,
        }
    }
}

/// What an ear-detection step asks the caller to do, in order: profile
/// changes first, then the pause or resume calls.
pub struct EarOutcome {
    /// Activate the A2DP profile.
    pub activate_a2dp: bool,
    /// Set the card profile to `off`.
    pub deactivate_a2dp: bool,
    /// Services to pause now.
    pub pause: Vec<String>,
    /// Services to resume now.
    pub resume: Vec<String>,
}

/// The ear-detection step.  `playing` is the set of media services in
/// `Playing` state at this moment (already excluding remote-control
/// proxies); the pair of booleans is in-ear per bud, old from the event and
/// new.  Yields the new state together with what to pause, what to resume,
/// and the profile changes.
pub open spec fn spec_ear_step(
    s: CoordV,
    old_l: bool,
    old_r: bool,
    new_l: bool,
    new_r: bool,
    playing: Seq<Seq<char>>,
) -> (CoordV, bool, bool, Seq<Seq<char>>, Seq<Seq<char>>) {
    if !s.ear_detection_enabled {
        (s, false, false, Seq::empty(), Seq::empty())
    } else {
        let all_old_out = !old_l && !old_r;
        let all_old_in = old_l && old_r;
        let any_new_in = new_l || new_r;
        let all_new_in = new_l && new_r;
        let all_new_out = !new_l && !new_r;
        let inserted = any_new_in && all_old_out;
        let removed = all_new_out;
        let s1 = CoordV {
            user_played_the_media: if inserted && s.is_playing {
                true
            } else {
                s.user_played_the_media
            },
            paused_by_us: if removed && playing.len() > 0 {
                playing
            } else {
                s.paused_by_us
            },
            is_playing: if removed && playing.len() > 0 {
                false
            } else {
                s.is_playing
            },
            ..s
        };
        let reset = (!all_old_in && all_new_in) || (!all_new_in && all_old_in);
        let s2 = CoordV {
            user_played_the_media: if reset {
                false
            } else {
                s1.user_played_the_media
            },
            ..s1
        };
        let old_count: int = (if old_l {
            1int
        } else {
            0int
        }) + (if old_r {
            1int
        } else {
            0int
        });
        let new_count: int = (if new_l {
            1int
        } else {
            0int
        }) + (if new_r {
            1int
        } else {
            0int
        });
        let changed = old_count != new_count;
        let remaining: Seq<Seq<char>> = if removed {
            Seq::empty()
        } else {
            playing
        };
        let resume_now = changed && all_new_in;
        let pause_again = changed && !all_new_in && !all_old_out;
        let resume_fallback = changed && !all_new_in && all_old_out;
        let s3 = if resume_now || resume_fallback {
            CoordV { paused_by_us: Seq::empty(), i_paused_the_media: false, ..s2 }
        } else if pause_again {
            CoordV {
                paused_by_us: if remaining.len() > 0 {
                    remaining
                } else {
                    s2.paused_by_us
                },
                is_playing: if remaining.len() > 0 {
                    false
                } else {
                    s2.is_playing
                },
                i_paused_the_media: true,
                ..s2
            }
        } else {
            s2
        };
        let s4 = CoordV { old_left_in_ear: new_l, old_right_in_ear: new_r, ..s3 };
        let activate = inserted;
        let deactivate = removed && s.disconnect_when_not_wearing;
        let pause_list = (if removed {
            playing
        } else {
            Seq::empty()
        }) + (if pause_again {
            remaining
        } else {
            Seq::empty()
        });
        let resume_list = if resume_now || resume_fallback {
            s2.paused_by_us
        } else {
            Seq::empty()
        };
        (s4, activate, deactivate, pause_list, resume_list)
    }
}

/// Law: the coordinator never remembers a service it did not just see
/// playing — after an ear-detection step, everything in `paused_by_us`
/// was already there or was in the step's playing set.
pub proof fn lemma_paused_only_from_playing(
    s: CoordV,
    old_l: bool,
    old_r: bool,
    new_l: bool,
    new_r: bool,
    playing: Seq<Seq<char>>,
)
    ensures
        forall|svc: Seq<char>|
            spec_ear_step(s, old_l, old_r, new_l, new_r, playing).0.paused_by_us.contains(svc)
                ==> s.paused_by_us.contains(svc) || playing.contains(svc),
{
}

/// One ear-detection event together with what was playing when it arrived.
pub struct EarTraceStep {
    pub old_l: bool,
    pub old_r: bool,
    pub new_l: bool,
    pub new_r: bool,
    pub playing: Seq<Seq<char>>,
}

/// The coordinator state after a sequence of ear-detection events.
pub open spec fn spec_run_ear(s0: CoordV, events: Seq<EarTraceStep>) -> CoordV
    decreases events.len(),
{
    if events.len() == 0 {
        s0
    } else {
        let e = events.last();
        spec_ear_step(
            spec_run_ear(s0, events.drop_last()),
            e.old_l,
            e.old_r,
            e.new_l,
            e.new_r,
            e.playing,
        ).0
    }
}

/// Law: over any ear-detection sequence started with nothing paused,
/// `paused_by_us` holds only services that were playing at the moment of
/// one of the events.
pub proof fn lemma_paused_by_us_were_playing(s0: CoordV, events: Seq<EarTraceStep>, svc: Seq<char>)
    requires
        s0.paused_by_us.len() == 0,
        spec_run_ear(s0, events).paused_by_us.contains(svc),
    ensures
        exists|i: int| 0 <= i < events.len() && (#[trigger] events[i]).playing.contains(svc),
    decreases events.len(),
{
    if events.len() == 0 {
    } else {
        let e = events.last();
        let prev = spec_run_ear(s0, events.drop_last());
        lemma_paused_only_from_playing(prev, e.old_l, e.old_r, e.new_l, e.new_r, e.playing);
        if prev.paused_by_us.contains(svc) {
            lemma_paused_by_us_were_playing(s0, events.drop_last(), svc);
            let j = choose|j: int|
                0 <= j < events.drop_last().len() && (#[trigger] events.drop_last()[j]).playing
                    .contains(svc);
            assert(events[j].playing.contains(svc));
        } else {
            assert(e.playing.contains(svc));
            assert(events[events.len() - 1].playing.contains(svc));
        }
    }
}

/// Apply one ear-detection event.  `playing` lists the media services in
/// `Playing` state right now, remote-control proxies already excluded.
pub fn handle_ear_detection(
    state: &mut CoordinatorState,
    old_l: bool,
    old_r: bool,
    new_l: bool,
    new_r: bool,
    playing: &Vec<String>,
) -> (r: EarOutcome)
    ensures
        ({
            let step = spec_ear_step(
                old(state)@,
                old_l,
                old_r,
                new_l,
                new_r,
                playing@.map_values(|s: String| s@),
            );
            &&& final(state)@ == step.0
            &&& r.activate_a2dp == step.1
            &&& r.deactivate_a2dp == step.2
            &&& r.pause@.map_values(|s: String| s@) == step.3
            &&& r.resume@.map_values(|s: String| s@) == step.4
        }),
{
    let ghost playing_v = playing@.map_values(|s: String| s@);
    let ghost step = spec_ear_step(old(state)@, old_l, old_r, new_l, new_r, playing_v);
    if !state.ear_detection_enabled {
        proof {
            assert(state@ == step.0);
            assert(Seq::<String>::empty().map_values(|s: String| s@) =~= Seq::<Seq<char>>::empty());
        }
        return EarOutcome {
            activate_a2dp: false,
            deactivate_a2dp: false,
            pause: Vec::new(),
            resume: Vec::new(),
        };
    }
    let all_old_out = !old_l && !old_r;
    let all_old_in = old_l && old_r;
    let any_new_in = new_l || new_r;
    let all_new_in = new_l && new_r;
    let all_new_out = !new_l && !new_r;
    let inserted = any_new_in && all_old_out;
    let removed = all_new_out;
    let mut pause: Vec<String> = Vec::new();
    let mut resume: Vec<String> = Vec::new();
    if inserted && state.is_playing {
        state.user_played_the_media = true;
    }
    if removed && playing.len() > 0 {
        state.paused_by_us = clone_services(playing);
        state.is_playing = false;
        let mut copy = clone_services(playing);
        pause.append(&mut copy);
    }
    let reset = (!all_old_in && all_new_in) || (!all_new_in && all_old_in);
    if reset {
        state.user_played_the_media = false;
    }
    let old_count: u32 = (if old_l {
        1u32
    } else {
        0u32
    }) + (if old_r {
        1u32
    } else {
        0u32
    });
    let new_count: u32 = (if new_l {
        1u32
    } else {
        0u32
    }) + (if new_r {
        1u32
    } else {
        0u32
    });
    let changed = old_count != new_count;
    let resume_now = changed && all_new_in;
    let pause_again = changed && !all_new_in && !all_old_out;
    let resume_fallback = changed && !all_new_in && all_old_out;
    if resume_now || resume_fallback {
        let mut served = clone_services(&state.paused_by_us);
        resume.append(&mut served);
        state.paused_by_us = Vec::new();
        state.i_paused_the_media = false;
    } else if pause_again {
        if !removed && playing.len() > 0 {
            state.paused_by_us = clone_services(playing);
            state.is_playing = false;
            let mut copy = clone_services(playing);
            pause.append(&mut copy);
        }
        state.i_paused_the_media = true;
    }
    state.old_left_in_ear = new_l;
    state.old_right_in_ear = new_r;
    let activate_a2dp = inserted;
    let deactivate_a2dp = removed && state.disconnect_when_not_wearing;
    proof {
        assert(state@.paused_by_us =~= step.0.paused_by_us);
        assert(state@ == step.0);
        assert(pause@.map_values(|s: String| s@) =~= step.3);
        assert(resume@.map_values(|s: String| s@) =~= step.4);
    }
    EarOutcome { activate_a2dp, deactivate_a2dp, pause, resume }
}

/// Copy a list of service names.
fn clone_services(v: &Vec<String>) -> (r: Vec<String>)
    ensures
        r@.map_values(|s: String| s@) == v@.map_values(|s: String| s@),
{
    let mut r: Vec<String> = Vec::new();
    let mut i: usize = 0;
    while i < v.len()
        invariant
            i <= v@.len(),
            r@.len() == i,
            forall|j: int| 0 <= j < i ==> (#[trigger] r@[j])@ == v@[j]@,
        decreases v@.len() - i,
    {
        r.push(v[i].clone());
        i = i + 1;
    }
    proof {
        assert(r@.map_values(|s: String| s@) =~= v@.map_values(|s: String| s@));
    }
    r
}

/// Ownership loss: every playing service is paused without being recorded
/// for resume (the peer will not give the audio back), and the profile goes
/// off.
pub open spec fn spec_ownership_lost(s: CoordV, playing: Seq<Seq<char>>) -> CoordV {
    CoordV {
        is_playing: if playing.len() > 0 {
            false
        } else {
            s.is_playing
        },
        ..s
    }
}

/// React to losing the audio connection: pause whatever plays (without
/// remembering it) and turn the profile off.
pub fn handle_ownership_lost(state: &mut CoordinatorState, playing: &Vec<String>) -> (r: (
    Vec<String>,
    bool,
))
    ensures
        final(state)@ == spec_ownership_lost(old(state)@, playing@.map_values(|s: String| s@)),
        r.0@.map_values(|s: String| s@) == playing@.map_values(|s: String| s@),
        r.1,
{
    if playing.len() > 0 {
        state.is_playing = false;
    }
    (clone_services(playing), true)
}

/// The ownership handoff messages for one takeover: for every connected
/// peer other than this host, media information, the routing banner, and
/// the hijack request, in that order.
pub open spec fn spec_takeover_msgs(local: Seq<u8>, peers: Seq<PeerV>) -> Seq<MsgV>
    decreases peers.len(),
{
    if peers.len() == 0 {
        Seq::empty()
    } else {
        let d = peers[0];
        let rest = spec_takeover_msgs(local, peers.subrange(1, peers.len() as int));
        if d.mac != local {
            seq![
                MsgV::MediaInformation { local: local, remote: d.mac, playing: true },
                MsgV::SmartRoutingShowUi { mac: d.mac },
                MsgV::HijackRequest { mac: d.mac },
            ] + rest
        } else {
            rest
        }
    }
}

/// Appending a peer appends its handoff messages.
proof fn lemma_takeover_msgs_push(local: Seq<u8>, peers: Seq<PeerV>, d: PeerV)
    ensures
        spec_takeover_msgs(local, peers.push(d)) == spec_takeover_msgs(local, peers) + (if d.mac
            != local {
            seq![
                MsgV::MediaInformation { local: local, remote: d.mac, playing: true },
                MsgV::SmartRoutingShowUi { mac: d.mac },
                MsgV::HijackRequest { mac: d.mac },
            ]
        } else {
            Seq::<MsgV>::empty()
        }),
    decreases peers.len(),
{
    let tri = if d.mac != local {
        seq![
            MsgV::MediaInformation { local: local, remote: d.mac, playing: true },
            MsgV::SmartRoutingShowUi { mac: d.mac },
            MsgV::HijackRequest { mac: d.mac },
        ]
    } else {
        Seq::<MsgV>::empty()
    };
    if peers.len() == 0 {
        let p = peers.push(d);
        assert(p[0] == d);
        assert(p.subrange(1, 1) =~= Seq::<PeerV>::empty());
        assert(spec_takeover_msgs(local, p.subrange(1, 1)) =~= Seq::<MsgV>::empty());
        assert(spec_takeover_msgs(local, p) =~= tri);
        assert(spec_takeover_msgs(local, peers) =~= Seq::<MsgV>::empty());
    } else {
        let rest = peers.subrange(1, peers.len() as int);
        lemma_takeover_msgs_push(local, rest, d);
        assert(peers.push(d)[0] == peers[0]);
        assert(peers.push(d).subrange(1, peers.len() as int + 1) =~= rest.push(d));
        assert(spec_takeover_msgs(local, peers.push(d)) =~= spec_takeover_msgs(local, peers)
            + tri);
    }
}

/// The playback poll step: claim ownership exactly when playback just
/// started and at least one bud is in an ear.
pub open spec fn spec_playback_tick(s: CoordV, now_playing: bool, left_in_ear: bool,
    right_in_ear: bool) -> (CoordV, bool) {
    (
        CoordV { is_playing: now_playing, ..s },
        !s.is_playing && now_playing && (left_in_ear || right_in_ear),
    )
}

/// Law: once ownership was lost while media played, the next playback
/// start re-claims the connection — and with it the audio profile — if and
/// only if at least one bud is in an ear.
pub proof fn lemma_reclaim_iff_in_ear(
    s: CoordV,
    playing_at_loss: Seq<Seq<char>>,
    left_in_ear: bool,
    right_in_ear: bool,
)
    requires
        playing_at_loss.len() > 0,
    ensures
        spec_playback_tick(
            spec_ownership_lost(s, playing_at_loss),
            true,
            left_in_ear,
            right_in_ear,
        ).1 <==> (left_in_ear || right_in_ear),
{
}

/// What one playback poll asks the caller to do.
pub struct TickOutcome {
    /// Send `OwnsConnection = 1` and the handoff messages, and activate the
    /// A2DP profile.
    pub claim_ownership: bool,
    /// The messages to send when claiming: the ownership command first,
    /// then the handoff triplet per foreign peer.
    pub messages: Vec<AacpMessage>,
}

/// The `OwnsConnection = 1` control message.
pub open spec fn spec_claim_msg() -> MsgV {
    MsgV::ControlCommand {
        identifier: ControlCommandIdentifiers::OwnsConnection,
        value: seq![1u8],
    }
}

/// Apply one playback poll: `now_playing` is whether any media service
/// reports `Playing` right now; the in-ear pair is the peer's latest ear
/// state; `peers` the latest connected-peers report.
pub fn handle_playback_tick(
    state: &mut CoordinatorState,
    now_playing: bool,
    left_in_ear: bool,
    right_in_ear: bool,
    local: &[u8; 6],
    peers: &Vec<ConnectedDevice>,
) -> (r: TickOutcome)
    ensures
        ({
            let step = spec_playback_tick(old(state)@, now_playing, left_in_ear, right_in_ear);
            &&& final(state)@ == step.0
            &&& r.claim_ownership == step.1
            &&& r.claim_ownership ==> r.messages@.map_values(|m: AacpMessage| m@) == seq![
                spec_claim_msg(),
            ] + spec_takeover_msgs(local@, peers@.map_values(|d: ConnectedDevice| d@))
            &&& !r.claim_ownership ==> r.messages@.len() == 0
            &&& forall|i: int| 0 <= i < r.messages@.len() ==> msg_wf((#[trigger] r.messages@[i])@)
        }),
{
    let was_playing = state.is_playing;
    state.is_playing = now_playing;
    let claim = !was_playing && now_playing && (left_in_ear || right_in_ear);
    let mut messages: Vec<AacpMessage> = Vec::new();
    if claim {
        let ghost peers_v = peers@.map_values(|d: ConnectedDevice| d@);
        let mut value: Vec<u8> = Vec::new();
        value.push(1);
        proof {
            assert(value@ =~= seq![1u8]);
        }
        messages.push(
            AacpMessage::ControlCommand {
                identifier: ControlCommandIdentifiers::OwnsConnection,
                value,
            },
        );
        let ghost head = seq![spec_claim_msg()];
        proof {
            assert(messages@.map_values(|m: AacpMessage| m@) =~= head + spec_takeover_msgs(
                local@,
                peers_v.subrange(0, 0),
            )) by {
                assert(peers_v.subrange(0, 0) =~= Seq::<PeerV>::empty());
            }
        }
        let mut i: usize = 0;
        while i < peers.len()
            invariant
                i <= peers@.len(),
                peers_v == peers@.map_values(|d: ConnectedDevice| d@),
                head == seq![spec_claim_msg()],
                messages@.map_values(|m: AacpMessage| m@) == head + spec_takeover_msgs(
                    local@,
                    peers_v.subrange(0, i as int),
                ),
                forall|j: int|
                    0 <= j < messages@.len() ==> msg_wf((#[trigger] messages@[j])@),
            decreases peers@.len() - i,
        {
            let d = peers[i];
            let same = d.mac[0] == local[0] && d.mac[1] == local[1] && d.mac[2] == local[2]
                && d.mac[3] == local[3] && d.mac[4] == local[4] && d.mac[5] == local[5];
            proof {
                if same {
                    assert(d.mac@ =~= local@);
                }
            }
            let ghost msgs0 = messages@.map_values(|m: AacpMessage| m@);
            if !same {
                messages.push(
                    AacpMessage::MediaInformation { local: *local, remote: d.mac, playing: true },
                );
                messages.push(AacpMessage::SmartRoutingShowUi { mac: d.mac });
                messages.push(AacpMessage::HijackRequest { mac: d.mac });
            }
            proof {
                lemma_takeover_msgs_push(local@, peers_v.subrange(0, i as int), peers_v[i as int]);
                assert(peers_v.subrange(0, (i + 1) as int) =~= peers_v.subrange(0, i as int).push(
                    peers_v[i as int],
                ));
                if !same {
                    assert(messages@.map_values(|m: AacpMessage| m@) =~= msgs0 + seq![
                        MsgV::MediaInformation { local: local@, remote: d.mac@, playing: true },
                        MsgV::SmartRoutingShowUi { mac: d.mac@ },
                        MsgV::HijackRequest { mac: d.mac@ },
                    ]);
                    assert(peers_v[i as int].mac == d.mac@);
                } else {
                    assert(peers_v[i as int].mac == local@);
                }
                assert(messages@.map_values(|m: AacpMessage| m@) =~= head + spec_takeover_msgs(
                    local@,
                    peers_v.subrange(0, (i + 1) as int),
                ));
            }
            i = i + 1;
        }
        proof {
            assert(peers_v.subrange(0, peers_v.len() as int) =~= peers_v);
        }
    }
    TickOutcome { claim_ownership: claim, messages }
}

/// The conversational-awareness step: what the state becomes and the sink
/// volume to fade to, if any.  `current` is the sink volume right now,
/// when it could be read.
pub open spec fn spec_conv_step(s: CoordV, status: u8, current: Option<u32>) -> (
    CoordV,
    Option<u32>,
) {
    if status == 1 {
        let cur = match current {
            Some(c) => c,
            None => 0,
        };
        let s2 = if !s.conv_started {
            CoordV { conv_original_volume: Some(cur), conv_started: true, ..s }
        } else {
            s
        };
        (
            s2,
            if cur > 25 {
                Some(25u32)
            } else {
                None
            },
        )
    } else if status == 2 {
        match s.conv_original_volume {
            Some(orig) => (
                s,
                if orig > 15 {
                    Some(15u32)
                } else {
                    None
                },
            ),
            None => (s, None),
        }
    } else if status == 3 {
        if !s.conv_started {
            (s, None)
        } else {
            match s.conv_original_volume {
                Some(orig) => (
                    s,
                    Some(
                        if orig > 25 {
                            25u32
                        } else {
                            orig
                        },
                    ),
                ),
                None => match current {
                    Some(c) => (
                        s,
                        Some(
                            if c > 25 {
                                25u32
                            } else {
                                c
                            },
                        ),
                    ),
                    None => (s, None),
                },
            }
        }
    } else if status == 4 || status == 6 || status == 7 {
        if s.conv_started {
            (
                CoordV { conv_original_volume: None, conv_started: false, ..s },
                s.conv_original_volume,
            )
        } else {
            (s, None)
        }
    } else {
        (s, None)
    }
}

/// A volume is stored exactly while a conversation is in progress.
pub open spec fn spec_conv_inv(s: CoordV) -> bool {
    s.conv_started <==> s.conv_original_volume is Some
}

/// Law: every conversational-awareness status keeps the stored-volume
/// invariant.
pub proof fn lemma_conv_step_keeps_inv(s: CoordV, status: u8, current: Option<u32>)
    requires
        spec_conv_inv(s),
    ensures
        spec_conv_inv(spec_conv_step(s, status, current).0),
{
}

/// Law: an end status leaves no conversation in progress and no stored
/// volume, and restores the volume that was stored, if any.
pub proof fn lemma_conv_end_clears(s: CoordV, status: u8, current: Option<u32>)
    requires
        status == 4 || status == 6 || status == 7,
        spec_conv_inv(s),
    ensures
        !spec_conv_step(s, status, current).0.conv_started,
        spec_conv_step(s, status, current).0.conv_original_volume is None,
        s.conv_started ==> spec_conv_step(s, status, current).1 == s.conv_original_volume,
{
}

/// Apply one conversational-awareness status.  Returns the volume to fade
/// the sink to, if any.
pub fn handle_conversational_awareness(
    state: &mut CoordinatorState,
    status: u8,
    current_volume: Option<u32>,
) -> (r: Option<u32>)
    ensures
        final(state)@ == spec_conv_step(old(state)@, status, current_volume).0,
        r == spec_conv_step(old(state)@, status, current_volume).1,
{
    if status == 1 {
        let cur = match current_volume {
            Some(c) => c,
            None => 0,
        };
        if !state.conv_started {
            state.conv_original_volume = Some(cur);
            state.conv_started = true;
        }
        if cur > 25 {
            Some(25)
        } else {
            None
        }
    } else if status == 2 {
        match state.conv_original_volume {
            Some(orig) => if orig > 15 {
                Some(15)
            } else {
                None
            },
            None => None,
        }
    } else if status == 3 {
        if !state.conv_started {
            None
        } else {
            match state.conv_original_volume {
                Some(orig) => Some(
                    if orig > 25 {
                        25
                    } else {
                        orig
                    },
                ),
                None => match current_volume {
                    Some(c) => Some(
                        if c > 25 {
                            25
                        } else {
                            c
                        },
                    ),
                    None => None,
                },
            }
        }
    } else if status == 4 || status == 6 || status == 7 {
        if state.conv_started {
            let orig = state.conv_original_volume;
            state.conv_original_volume = None;
            state.conv_started = false;
            orig
        } else {
            None
        }
    } else {
        None
    }
}

/// A media-player command a stem press maps to.
#[derive(Clone, Copy, Debug, PartialEq, Eq, Structural)]
pub enum MediaCommand {
    TogglePlayPause,
    NextTrack,
    PreviousTrack,
}

/// The media command of a stem press: single toggles, double skips
/// forward, triple skips back, a long press does nothing.
pub open spec fn spec_stem_action(kind: StemPressType) -> Option<MediaCommand> {
    match kind {
        StemPressType::SinglePress => Some(MediaCommand::TogglePlayPause),
        StemPressType::DoublePress => Some(MediaCommand::NextTrack),
        StemPressType::TriplePress => Some(MediaCommand::PreviousTrack),
        StemPressType::LongPress => None,
    }
}

/// Map a stem press to its media command.
pub fn stem_press_action(kind: StemPressType) -> (r: Option<MediaCommand>)
    ensures
        r == spec_stem_action(kind),
{
    match kind {
        StemPressType::SinglePress => Some(MediaCommand::TogglePlayPause),
        StemPressType::DoublePress => Some(MediaCommand::NextTrack),
        StemPressType::TriplePress => Some(MediaCommand::PreviousTrack),
        StemPressType::LongPress => None,
    }
}

/// Two strings are the same text.
fn str_eq(a: &str, b: &str) -> (r: bool)
    ensures
        r == (a@ == b@),
{
    let n = a.unicode_len();
    let m = b.unicode_len();
    if n != m {
        proof {
            assert(a@.len() != b@.len());
        }
        return false;
    }
    let mut i: usize = 0;
    while i < n
        invariant
            i <= n,
            n == a@.len(),
            n == b@.len(),
            forall|j: int| 0 <= j < i ==> a@[j] == b@[j],
        decreases n - i,
    {
        if a.get_char(i) != b.get_char(i) {
            return false;
        }
        i = i + 1;
    }
    proof {
        assert(a@ =~= b@);
    }
    true
}

/// The first profile with the given name, if any.
pub open spec fn spec_first_named(profiles: Seq<Seq<char>>, name: Seq<char>, from: int) -> Option<
    int,
>
    decreases profiles.len() - from,
{
    if from < 0 || from >= profiles.len() {
        None
    } else if profiles[from] == name {
        Some(from)
    } else {
        spec_first_named(profiles, name, from + 1)
    }
}

/// Find the first profile with the given name.
fn find_named(profiles: &Vec<String>, name: &str) -> (r: Option<usize>)
    ensures
        spec_first_named(profiles@.map_values(|s: String| s@), name@, 0) == (match r {
            Some(i) => Some(i as int),
            None => None::<int>,
        }),
        r matches Some(i) ==> i < profiles@.len(),
{
    let ghost view = profiles@.map_values(|s: String| s@);
    let n = profiles.len();
    let mut i: usize = 0;
    while i < n
        invariant
            i <= n,
            n == profiles@.len(),
            view == profiles@.map_values(|s: String| s@),
            spec_first_named(view, name@, 0) == spec_first_named(view, name@, i as int),
        decreases n - i,
    {
        if str_eq(profiles[i].as_str(), name) {
            return Some(i);
        }
        i = i + 1;
    }
    None
}

/// Which of a card's profiles to activate: the first `a2dp-sink-sbc_xq`,
/// else the first `a2dp-sink-sbc`, else the first `a2dp-sink`; none means
/// the audio server must be prodded or the card is unusable.
pub fn choose_a2dp_profile(profiles: &Vec<String>) -> (r: Option<usize>)
    ensures
        ({
            let view = profiles@.map_values(|s: String| s@);
            match spec_first_named(view, "a2dp-sink-sbc_xq"@, 0) {
                Some(i) => r == Some(i as usize),
                None => match spec_first_named(view, "a2dp-sink-sbc"@, 0) {
                    Some(i) => r == Some(i as usize),
                    None => match spec_first_named(view, "a2dp-sink"@, 0) {
                        Some(i) => r == Some(i as usize),
                        None => r is None,
                    },
                },
            }
        }),
{
    if let Some(i) = find_named(profiles, "a2dp-sink-sbc_xq") {
        return Some(i);
    }
    if let Some(i) = find_named(profiles, "a2dp-sink-sbc") {
        return Some(i);
    }
    find_named(profiles, "a2dp-sink")
}

} // verus!