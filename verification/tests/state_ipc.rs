use airpods_core::aacp::{
    AACPEvent, BatteryComponent, BatteryInfo, BatteryStatus, ControlCommandIdentifiers,
    ControlCommandStatus,
};
use airpods_core::app_state::{
    apply_aacp_event, apply_device_connected, battery_percentage, is_kdeconnect_service,
    is_mpris_service, settings_items, AirPodsDeviceState, DeviceState, FocusedSection,
    NothingDeviceState, SettingsItem,
};
use airpods_core::apple_models::{model_info, parse_modalias};
use airpods_core::config::{config_path, render_template, Config};
use airpods_core::enums::{AirPodsNoiseControlMode, NothingAncMode};
use airpods_core::ipc::{frame_ipc_message, parse_ipc_len, update_snapshot, AppEvent};

#[test]
fn focused_section_cycles() {
    assert_eq!(FocusedSection::NoiseControl.next(), FocusedSection::Settings);
    assert_eq!(FocusedSection::Settings.next(), FocusedSection::NoiseControl);
    assert_eq!(FocusedSection::NoiseControl.prev(), FocusedSection::Settings);
}

#[test]
fn device_state_names() {
    let a = DeviceState::AirPods(AirPodsDeviceState::new("Left Pods".to_string()));
    assert_eq!(a.name(), "Left Pods");
    let n = DeviceState::Nothing(NothingDeviceState {
        name: "Ear (2)".to_string(),
        anc_mode: NothingAncMode::Off,
    });
    assert_eq!(n.name(), "Ear (2)");
}

#[test]
fn battery_event_fills_slots() {
    let mut s = AirPodsDeviceState::new("Buds".to_string());
    apply_aacp_event(
        &mut s,
        &AACPEvent::BatteryInfo(vec![
            BatteryInfo {
                component: BatteryComponent::Left,
                level: 44,
                status: BatteryStatus::Charging,
            },
            BatteryInfo {
                component: BatteryComponent::Case,
                level: 90,
                status: BatteryStatus::NotCharging,
            },
        ]),
    );
    assert_eq!(s.battery_left, Some((44, BatteryStatus::Charging)));
    assert_eq!(s.battery_case, Some((90, BatteryStatus::NotCharging)));
    assert_eq!(s.battery_right, None);
}

#[test]
fn control_commands_update_settings() {
    let mut s = AirPodsDeviceState::new("Buds".to_string());
    apply_aacp_event(
        &mut s,
        &AACPEvent::ControlCommand(ControlCommandStatus {
            identifier: ControlCommandIdentifiers::ListeningMode,
            value: vec![3],
        }),
    );
    assert_eq!(s.listening_mode, AirPodsNoiseControlMode::Transparency);
    apply_aacp_event(
        &mut s,
        &AACPEvent::ControlCommand(ControlCommandStatus {
            identifier: ControlCommandIdentifiers::ChimeVolume,
            value: vec![65],
        }),
    );
    assert_eq!(s.tone_volume, Some(65));
    apply_aacp_event(
        &mut s,
        &AACPEvent::ControlCommand(ControlCommandStatus {
            identifier: ControlCommandIdentifiers::AllowAutoConnect,
            value: vec![0],
        }),
    );
    assert_eq!(s.auto_connect, Some(false));
}

#[test]
fn settings_rows_follow_the_model() {
    let mut s = AirPodsDeviceState::new("Pro".to_string());
    s.product_id = 0x2014;
    let info = model_info(0x2014);
    s.has_anc = info.has_anc;
    s.has_adaptive = info.has_adaptive;
    let items = settings_items(&s);
    assert_eq!(items.len(), 9);
    assert!(matches!(
        items[0],
        SettingsItem::Toggle { cmd: ControlCommandIdentifiers::ConversationDetectConfig, .. }
    ));
    assert!(matches!(
        items[items.len() - 1],
        SettingsItem::Toggle { cmd: ControlCommandIdentifiers::AllowAutoConnect, value: true, .. }
    ));
    // In adaptive mode one more slider appears.
    s.listening_mode = AirPodsNoiseControlMode::Adaptive;
    assert_eq!(settings_items(&s).len(), 10);
    // A model without stem controls or awareness offers fewer rows.
    let mut max = AirPodsDeviceState::new("Max".to_string());
    max.product_id = 0x200a;
    assert_eq!(settings_items(&max).len(), 4);
}

#[test]
fn battery_percentage_is_the_minimum() {
    assert_eq!(battery_percentage(Some(30), Some(70)), 30);
    assert_eq!(battery_percentage(Some(80), Some(45)), 45);
    assert_eq!(battery_percentage(Some(12), None), 12);
    assert_eq!(battery_percentage(None, Some(7)), 7);
    assert_eq!(battery_percentage(None, None), 0);
}

#[test]
fn mpris_service_predicates() {
    assert!(is_mpris_service("org.mpris.MediaPlayer2.spotify"));
    assert!(!is_mpris_service("org.freedesktop.DBus"));
    assert!(is_kdeconnect_service("org.mpris.MediaPlayer2.kdeconnect.mpris_000001"));
    assert!(!is_kdeconnect_service("org.mpris.MediaPlayer2.spotify"));
}

#[test]
fn modalias_parses_vendor_and_product() {
    assert_eq!(parse_modalias("bluetooth:v004Cp200Ed0087"), Some((0x004C, 0x200E)));
    assert_eq!(parse_modalias("usb:v1234p5678d0001"), Some((0x1234, 0x5678)));
    assert_eq!(parse_modalias("no-ids-here"), None);
    assert_eq!(parse_modalias("bluetooth:v00"), None);
}

#[test]
fn noise_modes_round_trip_on_the_wire() {
    for m in [
        AirPodsNoiseControlMode::Off,
        AirPodsNoiseControlMode::NoiseCancellation,
        AirPodsNoiseControlMode::Transparency,
        AirPodsNoiseControlMode::Adaptive,
    ] {
        assert_eq!(AirPodsNoiseControlMode::from_byte(&m.to_byte()), m);
    }
    assert_eq!(AirPodsNoiseControlMode::from_byte(&0xEE), AirPodsNoiseControlMode::Off);
    for b in [1u8, 2, 3, 4, 5, 7] {
        assert_eq!(NothingAncMode::from_byte(b).to_byte(), b);
    }
    assert!(matches!(NothingAncMode::from_byte(0xEE), NothingAncMode::Off));
}

#[test]
fn ipc_frames_carry_their_length() {
    let msg = b"{\"hello\":1}".to_vec();
    let framed = frame_ipc_message(&msg);
    assert_eq!(&framed[..4], &[0, 0, 0, 11]);
    assert_eq!(&framed[4..], &msg[..]);
    let header: [u8; 4] = framed[..4].try_into().unwrap();
    assert_eq!(parse_ipc_len(&header), Some(11));
    // A length over 16 MiB is refused.
    assert_eq!(parse_ipc_len(&[0xFF, 0, 0, 0]), None);
    assert_eq!(parse_ipc_len(&[0x01, 0, 0, 0]), Some(0x0100_0000));
    assert_eq!(parse_ipc_len(&[0x01, 0, 0, 1]), None);
}

fn battery_event(mac: &str, level: u8) -> AppEvent {
    AppEvent::AACPEvent(
        mac.to_string(),
        AACPEvent::BatteryInfo(vec![BatteryInfo {
            component: BatteryComponent::Left,
            level,
            status: BatteryStatus::NotCharging,
        }]),
    )
}

fn count_battery(snapshot: &[AppEvent], mac: &str) -> usize {
    snapshot
        .iter()
        .filter(|e| {
            matches!(e, AppEvent::AACPEvent(m, AACPEvent::BatteryInfo(_)) if m == mac)
        })
        .count()
}

#[test]
fn snapshot_keeps_latest_battery_per_device() {
    let mut snap: Vec<AppEvent> = Vec::new();
    update_snapshot(&mut snap, battery_event("AA", 10));
    update_snapshot(&mut snap, battery_event("BB", 20));
    update_snapshot(&mut snap, battery_event("AA", 30));
    assert_eq!(count_battery(&snap, "AA"), 1);
    assert_eq!(count_battery(&snap, "BB"), 1);
    match &snap[snap.len() - 1] {
        AppEvent::AACPEvent(m, AACPEvent::BatteryInfo(items)) => {
            assert_eq!(m, "AA");
            assert_eq!(items[0].level, 30);
        }
        other => panic!("wrong last event: {:?}", other),
    }
}

#[test]
fn snapshot_purges_disconnected_devices() {
    let mut snap: Vec<AppEvent> = Vec::new();
    update_snapshot(
        &mut snap,
        AppEvent::DeviceConnected {
            mac: "AA".to_string(),
            name: "Buds".to_string(),
            is_nothing: false,
            product_id: 0x2014,
        },
    );
    update_snapshot(&mut snap, battery_event("AA", 10));
    update_snapshot(&mut snap, battery_event("BB", 20));
    update_snapshot(&mut snap, AppEvent::DeviceDisconnected("AA".to_string()));
    assert_eq!(count_battery(&snap, "AA"), 0);
    assert_eq!(count_battery(&snap, "BB"), 1);
    assert!(!snap
        .iter()
        .any(|e| matches!(e, AppEvent::DeviceConnected { mac, .. } if mac == "AA")));
}

#[test]
fn snapshot_appends_audio_unavailable_once() {
    let mut snap: Vec<AppEvent> = Vec::new();
    update_snapshot(&mut snap, AppEvent::AudioUnavailable);
    update_snapshot(&mut snap, AppEvent::AudioUnavailable);
    assert_eq!(
        snap.iter()
            .filter(|e| matches!(e, AppEvent::AudioUnavailable))
            .count(),
        1
    );
}

#[test]
fn snapshot_control_commands_replace_by_identifier() {
    let cc = |mac: &str, id, v: u8| {
        AppEvent::AACPEvent(
            mac.to_string(),
            AACPEvent::ControlCommand(ControlCommandStatus { identifier: id, value: vec![v] }),
        )
    };
    let mut snap: Vec<AppEvent> = Vec::new();
    update_snapshot(&mut snap, cc("AA", ControlCommandIdentifiers::ListeningMode, 1));
    update_snapshot(&mut snap, cc("AA", ControlCommandIdentifiers::ChimeVolume, 40));
    update_snapshot(&mut snap, cc("AA", ControlCommandIdentifiers::ListeningMode, 3));
    assert_eq!(snap.len(), 2);
}

#[test]
fn config_defaults_and_template() {
    let c = Config::default();
    assert_eq!(c.volume_osd_command, vec!["swayosd-client", "--output-volume", "{}"]);
    assert_eq!(
        c.volume_set_command,
        vec!["wpctl", "set-volume", "@DEFAULT_AUDIO_SINK@", "{}"]
    );
    assert!(c.restart_audio_server.is_none());
    let rendered = render_template(&c.volume_osd_command, "+5");
    assert_eq!(rendered, vec!["swayosd-client", "--output-volume", "+5"]);
    let doubled = render_template(&vec!["a{}b{}c".to_string()], "XY");
    assert_eq!(doubled, vec!["aXYbXYc"]);
    assert_eq!(config_path("/home/u/.config"), "/home/u/.config/airpods-tui/config.toml");
}

#[test]
fn second_link_up_replaces_name_but_keeps_state() {
    let mut devices: Vec<(String, DeviceState)> = Vec::new();
    let mac = "AA:BB:CC:DD:EE:FF".to_string();
    apply_device_connected(&mut devices, &mac, "Buds".to_string(), false, 0x2014);
    assert_eq!(devices.len(), 1);
    // The session learns a battery level.
    match &mut devices[0].1 {
        DeviceState::AirPods(s) => {
            s.battery_left = Some((42, BatteryStatus::NotCharging));
        }
        _ => panic!("wrong kind"),
    }
    // A second link-up for the same device: new name, same state.
    apply_device_connected(&mut devices, &mac, "Renamed".to_string(), false, 0x2014);
    assert_eq!(devices.len(), 1);
    match &devices[0].1 {
        DeviceState::AirPods(s) => {
            assert_eq!(s.name, "Renamed");
            assert_eq!(s.battery_left, Some((42, BatteryStatus::NotCharging)));
            assert_eq!(s.product_id, 0x2014);
        }
        _ => panic!("wrong kind"),
    }
    // A different device joins at the end.
    apply_device_connected(
        &mut devices,
        &"11:22:33:44:55:66".to_string(),
        "Ear".to_string(),
        true,
        0,
    );
    assert_eq!(devices.len(), 2);
    assert!(matches!(devices[1].1, DeviceState::Nothing(_)));
}

#[test]
fn late_product_id_backfills_model() {
    let mut devices: Vec<(String, DeviceState)> = Vec::new();
    let mac = "AA:BB:CC:DD:EE:FF".to_string();
    apply_device_connected(&mut devices, &mac, "Buds".to_string(), false, 0);
    match &devices[0].1 {
        DeviceState::AirPods(s) => assert_eq!(s.product_id, 0),
        _ => panic!("wrong kind"),
    }
    apply_device_connected(&mut devices, &mac, "Buds".to_string(), false, 0x2014);
    match &devices[0].1 {
        DeviceState::AirPods(s) => {
            assert_eq!(s.product_id, 0x2014);
            assert!(s.has_adaptive);
        }
        _ => panic!("wrong kind"),
    }
}
