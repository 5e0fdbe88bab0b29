use airpods_core::aacp::{ConnectedDevice, ControlCommandIdentifiers, StemPressType};
use airpods_core::codec::AacpMessage;
use airpods_core::coordinator::{
    choose_a2dp_profile, handle_conversational_awareness, handle_ear_detection,
    handle_ownership_lost, handle_playback_tick, stem_press_action, CoordinatorState,
    MediaCommand,
};

fn spotify() -> String {
    "org.mpris.MediaPlayer2.spotify".to_string()
}

#[test]
fn ear_removal_pauses_and_reinsertion_resumes() {
    let mut state = CoordinatorState::new();
    state.is_playing = true;
    // Buds were in, both leave the ears while Spotify plays.
    let playing = vec![spotify()];
    let out = handle_ear_detection(&mut state, true, true, false, false, &playing);
    assert!(!out.activate_a2dp);
    assert!(out.deactivate_a2dp, "disconnect_when_not_wearing turns the profile off");
    assert_eq!(out.pause, vec![spotify()]);
    assert!(out.resume.is_empty());
    assert_eq!(state.paused_by_us, vec![spotify()]);
    assert!(!state.is_playing);

    // Both buds come back: Spotify resumes, the list clears.
    let out = handle_ear_detection(&mut state, false, false, true, true, &vec![]);
    assert!(out.activate_a2dp);
    assert!(!out.deactivate_a2dp);
    assert!(out.pause.is_empty());
    assert_eq!(out.resume, vec![spotify()]);
    assert!(state.paused_by_us.is_empty());
}

#[test]
fn ear_events_do_nothing_when_disabled() {
    let mut state = CoordinatorState::new();
    state.ear_detection_enabled = false;
    let out = handle_ear_detection(&mut state, true, true, false, false, &vec![spotify()]);
    assert!(!out.activate_a2dp && !out.deactivate_a2dp);
    assert!(out.pause.is_empty() && out.resume.is_empty());
    assert!(state.paused_by_us.is_empty());
}

#[test]
fn paused_by_us_never_holds_a_service_that_was_not_playing() {
    let mut state = CoordinatorState::new();
    let out = handle_ear_detection(&mut state, true, true, false, false, &vec![]);
    assert!(out.pause.is_empty());
    assert!(state.paused_by_us.is_empty());
}

#[test]
fn ownership_takeover_sends_claim_then_handoff_triplet() {
    let mut state = CoordinatorState::new();
    let local = [0xAA, 0xBB, 0xCC, 0xDD, 0xEE, 0xFF];
    let peer_x = [1, 2, 3, 4, 5, 6];
    let peers = vec![
        ConnectedDevice { mac: local, info1: 0, info2: 0 },
        ConnectedDevice { mac: peer_x, info1: 1, info2: 2 },
    ];
    let out = handle_playback_tick(&mut state, true, true, true, &local, &peers);
    assert!(out.claim_ownership);
    assert_eq!(out.messages.len(), 4);
    match &out.messages[0] {
        AacpMessage::ControlCommand { identifier, value } => {
            assert_eq!(*identifier, ControlCommandIdentifiers::OwnsConnection);
            assert_eq!(value, &vec![1]);
        }
        other => panic!("wrong first message: {:?}", other),
    }
    match &out.messages[1] {
        AacpMessage::MediaInformation { local: l, remote, playing } => {
            assert_eq!(*l, local);
            assert_eq!(*remote, peer_x);
            assert!(*playing);
        }
        other => panic!("wrong second message: {:?}", other),
    }
    assert!(matches!(&out.messages[2], AacpMessage::SmartRoutingShowUi { mac } if *mac == peer_x));
    assert!(matches!(&out.messages[3], AacpMessage::HijackRequest { mac } if *mac == peer_x));
    assert!(state.is_playing);
}

#[test]
fn takeover_skipped_when_no_bud_worn() {
    let mut state = CoordinatorState::new();
    let local = [0xAA; 6];
    let out = handle_playback_tick(&mut state, true, false, false, &local, &vec![]);
    assert!(!out.claim_ownership);
    assert!(out.messages.is_empty());
    assert!(state.is_playing);
}

#[test]
fn reclaim_after_loss_activates_iff_a_bud_is_worn() {
    // Playback starts again with one bud in: the claim goes out.
    let mut state = CoordinatorState::new();
    state.is_playing = true;
    let (paused, deactivate) = handle_ownership_lost(&mut state, &vec![spotify()]);
    assert_eq!(paused, vec![spotify()]);
    assert!(deactivate);
    assert!(!state.is_playing);
    let out = handle_playback_tick(&mut state, true, true, false, &[0u8; 6], &vec![]);
    assert!(out.claim_ownership);

    // Playback starts again with no bud in: no claim.
    let mut state = CoordinatorState::new();
    state.is_playing = true;
    handle_ownership_lost(&mut state, &vec![spotify()]);
    let out = handle_playback_tick(&mut state, true, false, false, &[0u8; 6], &vec![]);
    assert!(!out.claim_ownership);
}

#[test]
fn conversational_awareness_cycle_fades_and_restores() {
    let mut state = CoordinatorState::new();
    // Current sink volume 70; statuses 1, 2, 3, 4.
    assert_eq!(handle_conversational_awareness(&mut state, 1, Some(70)), Some(25));
    assert!(state.conv_started);
    assert_eq!(state.conv_original_volume, Some(70));
    assert_eq!(handle_conversational_awareness(&mut state, 2, Some(25)), Some(15));
    assert_eq!(handle_conversational_awareness(&mut state, 3, Some(15)), Some(25));
    assert_eq!(handle_conversational_awareness(&mut state, 4, Some(25)), Some(70));
    assert!(!state.conv_started);
    assert_eq!(state.conv_original_volume, None);
}

#[test]
fn conversational_awareness_ignores_unstarted_restores() {
    let mut state = CoordinatorState::new();
    assert_eq!(handle_conversational_awareness(&mut state, 3, Some(70)), None);
    assert_eq!(handle_conversational_awareness(&mut state, 4, Some(70)), None);
    // A quiet start stores the volume but does not fade.
    assert_eq!(handle_conversational_awareness(&mut state, 1, Some(20)), None);
    assert_eq!(state.conv_original_volume, Some(20));
    // A second start does not overwrite the stored volume.
    assert_eq!(handle_conversational_awareness(&mut state, 1, Some(90)), Some(25));
    assert_eq!(state.conv_original_volume, Some(20));
    // End statuses 6 and 7 also restore.
    assert_eq!(handle_conversational_awareness(&mut state, 6, Some(25)), Some(20));
    assert_eq!(state.conv_original_volume, None);
}

#[test]
fn stem_presses_map_to_media_commands() {
    assert_eq!(stem_press_action(StemPressType::SinglePress), Some(MediaCommand::TogglePlayPause));
    assert_eq!(stem_press_action(StemPressType::DoublePress), Some(MediaCommand::NextTrack));
    assert_eq!(stem_press_action(StemPressType::TriplePress), Some(MediaCommand::PreviousTrack));
    assert_eq!(stem_press_action(StemPressType::LongPress), None);
}

#[test]
fn a2dp_profile_preference_order() {
    let all = vec![
        "headset-head-unit".to_string(),
        "a2dp-sink".to_string(),
        "a2dp-sink-sbc".to_string(),
        "a2dp-sink-sbc_xq".to_string(),
    ];
    assert_eq!(choose_a2dp_profile(&all), Some(3));
    let no_xq = vec!["a2dp-sink".to_string(), "a2dp-sink-sbc".to_string()];
    assert_eq!(choose_a2dp_profile(&no_xq), Some(1));
    let plain = vec!["off".to_string(), "a2dp-sink".to_string()];
    assert_eq!(choose_a2dp_profile(&plain), Some(1));
    assert_eq!(choose_a2dp_profile(&vec!["off".to_string()]), None);
}
