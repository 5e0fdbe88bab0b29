//! UI-facing state: per-device display state, the focused-section cycle,
//! the settings rows a device offers, and the status-line battery figure.

use crate::aacp::{AACPEvent, BatteryComponent, BatteryStatus, ControlCommandIdentifiers};
use crate::apple_models::spec_model_features;
use crate::enums::{spec_noise_mode_of_byte, AirPodsNoiseControlMode, NothingAncMode};
use vstd::prelude::*;
use vstd::string::StringExecFns;

verus! {

/// The two focusable sections of the device page.
#[derive(Clone, Copy, Debug, PartialEq, Eq, Structural)]
pub enum FocusedSection {
    NoiseControl,
    Settings,
}

impl FocusedSection {
    /// The next section in the cycle.
    pub fn next(self) -> (r: Self)
        ensures
            self == FocusedSection::NoiseControl ==> r == FocusedSection::Settings,
            self == FocusedSection::Settings ==> r == FocusedSection::NoiseControl,
    {
        match self {
            Self::NoiseControl => Self::Settings,
            Self::Settings => Self::NoiseControl,
        }
    }

    /// The previous section; with two sections it equals the next.
    pub fn prev(self) -> (r: Self)
        ensures
            self == FocusedSection::NoiseControl ==> r == FocusedSection::Settings,
            self == FocusedSection::Settings ==> r == FocusedSection::NoiseControl,
    {
        self.next()
    }
}

/// Display state of one AirPods-class device.
#[derive(Clone, Debug)]
pub struct AirPodsDeviceState {
    pub name: String,
    pub model: Option<String>,
    pub serial_number: Option<String>,
    pub battery_left: Option<(u8, BatteryStatus)>,
    pub battery_right: Option<(u8, BatteryStatus)>,
    pub battery_case: Option<(u8, BatteryStatus)>,
    pub battery_headphone: Option<(u8, BatteryStatus)>,
    pub product_id: u16,
    pub has_anc: bool,
    pub has_adaptive: bool,
    pub listening_mode: AirPodsNoiseControlMode,
    pub allow_off_mode: bool,
    pub conversation_awareness: bool,
    pub auto_connect: Option<bool>,
    pub one_bud_anc: bool,
    pub volume_swipe: bool,
    pub adaptive_volume: bool,
    pub press_speed: Option<u8>,
    pub press_hold_duration: Option<u8>,
    pub tone_volume: Option<u8>,
    pub volume_swipe_length: Option<u8>,
    pub adaptive_noise_level: Option<u8>,
}

impl AirPodsDeviceState {
    /// A freshly connected device: nothing known but its name, noise
    /// cancellation assumed until the model says otherwise.
    pub fn new(name: String) -> (r: Self)
        ensures
            r.name@ == name@,
            r.model is None,
            r.serial_number is None,
            r.battery_left is None,
            r.battery_right is None,
            r.battery_case is None,
            r.battery_headphone is None,
            r.product_id == 0,
            r.has_anc,
            !r.has_adaptive,
            r.listening_mode == AirPodsNoiseControlMode::NoiseCancellation,
            !r.allow_off_mode,
            !r.conversation_awareness,
            r.auto_connect is None,
            !r.one_bud_anc,
            !r.volume_swipe,
            !r.adaptive_volume,
            r.press_speed is None,
            r.press_hold_duration is None,
            r.tone_volume is None,
            r.volume_swipe_length is None,
            r.adaptive_noise_level is None,
    {
        Self {
            name,
            model: None,
            serial_number: None,
            battery_left: None,
            battery_right: None,
            battery_case: None,
            battery_headphone: None,
            product_id: 0,
            has_anc: true,
            has_adaptive: false,
            listening_mode: AirPodsNoiseControlMode::NoiseCancellation,
            allow_off_mode: false,
            conversation_awareness: false,
            auto_connect: None,
            one_bud_anc: false,
            volume_swipe: false,
            adaptive_volume: false,
            press_speed: None,
            press_hold_duration: None,
            tone_volume: None,
            volume_swipe_length: None,
            adaptive_noise_level: None,
        }
    }
}

/// Display state of one Nothing Ear device.
#[derive(Clone, Debug)]
pub struct NothingDeviceState {
    pub name: String,
    pub anc_mode: NothingAncMode,
}

/// Display state of one device, by kind.
#[derive(Clone, Debug)]
pub enum DeviceState {
    AirPods(AirPodsDeviceState),
    Nothing(NothingDeviceState),
}

impl DeviceState {
    /// The display name of the device.
    pub fn name(&self) -> (r: &str)
        ensures
            self matches DeviceState::AirPods(s) ==> r@ == s.name@,
            self matches DeviceState::Nothing(s) ==> r@ == s.name@,
    {
        match self {
            DeviceState::AirPods(s) => s.name.as_str(),
            DeviceState::Nothing(s) => s.name.as_str(),
        }
    }
}

/// Fold one session event into a device's display state.  Battery readings
/// land in their component slots; control-command values set the matching
/// setting; everything else leaves the state as it is.
pub fn apply_aacp_event(state: &mut AirPodsDeviceState, event: &AACPEvent)
    ensures
        event matches AACPEvent::BatteryInfo(infos) ==> {
            &&& final(state).battery_left == spec_battery_slot(
                old(state).battery_left,
                infos@,
                BatteryComponent::Left,
            )
            &&& final(state).battery_right == spec_battery_slot(
                old(state).battery_right,
                infos@,
                BatteryComponent::Right,
            )
            &&& final(state).battery_case == spec_battery_slot(
                old(state).battery_case,
                infos@,
                BatteryComponent::Case,
            )
            &&& final(state).battery_headphone == spec_battery_slot(
                old(state).battery_headphone,
                infos@,
                BatteryComponent::Headphone,
            )
            &&& *final(state) == (AirPodsDeviceState {
                battery_left: final(state).battery_left,
                battery_right: final(state).battery_right,
                battery_case: final(state).battery_case,
                battery_headphone: final(state).battery_headphone,
                ..*old(state)
            })
        },
        event matches AACPEvent::ControlCommand(cmd) ==> (cmd.value@.len() == 0 ==> *final(state)
            == *old(state)),
        event matches AACPEvent::ControlCommand(cmd) ==> cmd.value@.len() >= 1 ==> {
            let b = cmd.value@[0];
            match cmd.identifier {
                ControlCommandIdentifiers::ListeningMode => *final(state) == (AirPodsDeviceState {
                    listening_mode: spec_noise_mode_of_byte(b),
                    ..*old(state)
                }),
                ControlCommandIdentifiers::AllowOffOption => *final(state) == (AirPodsDeviceState {
                    allow_off_mode: b != 0,
                    ..*old(state)
                }),
                ControlCommandIdentifiers::ConversationDetectConfig => *final(state) == (
                AirPodsDeviceState { conversation_awareness: b == 1, ..*old(state) }),
                ControlCommandIdentifiers::AllowAutoConnect => *final(state) == (
                AirPodsDeviceState { auto_connect: Some(b != 0), ..*old(state) }),
                ControlCommandIdentifiers::OneBudAncMode => *final(state) == (AirPodsDeviceState {
                    one_bud_anc: b == 1,
                    ..*old(state)
                }),
                ControlCommandIdentifiers::VolumeSwipeMode => *final(state) == (
                AirPodsDeviceState { volume_swipe: b == 1, ..*old(state) }),
                ControlCommandIdentifiers::AdaptiveVolumeConfig => *final(state) == (
                AirPodsDeviceState { adaptive_volume: b == 1, ..*old(state) }),
                ControlCommandIdentifiers::DoubleClickInterval => *final(state) == (
                AirPodsDeviceState { press_speed: Some(b), ..*old(state) }),
                ControlCommandIdentifiers::ClickHoldInterval => *final(state) == (
                AirPodsDeviceState { press_hold_duration: Some(b), ..*old(state) }),
                ControlCommandIdentifiers::ChimeVolume => *final(state) == (AirPodsDeviceState {
                    tone_volume: Some(b),
                    ..*old(state)
                }),
                ControlCommandIdentifiers::VolumeSwipeInterval => *final(state) == (
                AirPodsDeviceState { volume_swipe_length: Some(b), ..*old(state) }),
                ControlCommandIdentifiers::AutoAncStrength => *final(state) == (
                AirPodsDeviceState { adaptive_noise_level: Some(b), ..*old(state) }),
                ControlCommandIdentifiers::OwnsConnection => *final(state) == *old(state),
            }
        },
        !(event matches AACPEvent::BatteryInfo(_) || event matches AACPEvent::ControlCommand(_))
            ==> *final(state) == *old(state),
{
    match event {
        AACPEvent::BatteryInfo(infos) => {
            let mut i: usize = 0;
            while i < infos.len()
                invariant
                    i <= infos@.len(),
                    state.battery_left == spec_battery_slot(
                        old(state).battery_left,
                        infos@.subrange(0, i as int),
                        BatteryComponent::Left,
                    ),
                    state.battery_right == spec_battery_slot(
                        old(state).battery_right,
                        infos@.subrange(0, i as int),
                        BatteryComponent::Right,
                    ),
                    state.battery_case == spec_battery_slot(
                        old(state).battery_case,
                        infos@.subrange(0, i as int),
                        BatteryComponent::Case,
                    ),
                    state.battery_headphone == spec_battery_slot(
                        old(state).battery_headphone,
                        infos@.subrange(0, i as int),
                        BatteryComponent::Headphone,
                    ),
                    *state == (AirPodsDeviceState {
                        battery_left: state.battery_left,
                        battery_right: state.battery_right,
                        battery_case: state.battery_case,
                        battery_headphone: state.battery_headphone,
                        ..*old(state)
                    }),
                decreases infos@.len() - i,
            {
                let b = infos[i];
                proof {
                    assert(infos@.subrange(0, (i + 1) as int).drop_last() =~= infos@.subrange(
                        0,
                        i as int,
                    ));
                    assert(infos@.subrange(0, (i + 1) as int).last() == infos@[i as int]);
                }
                match b.component {
                    BatteryComponent::Left => {
                        state.battery_left = Some((b.level, b.status));
                    },
                    BatteryComponent::Right => {
                        state.battery_right = Some((b.level, b.status));
                    },
                    BatteryComponent::Case => {
                        state.battery_case = Some((b.level, b.status));
                    },
                    BatteryComponent::Headphone => {
                        state.battery_headphone = Some((b.level, b.status));
                    },
                }
                i = i + 1;
            }
            proof {
                assert(infos@.subrange(0, infos@.len() as int) =~= infos@);
            }
        },
        AACPEvent::ControlCommand(cmd) => {
            if cmd.value.len() >= 1 {
                let b = cmd.value[0];
                match cmd.identifier {
                    ControlCommandIdentifiers::ListeningMode => {
                        state.listening_mode = AirPodsNoiseControlMode::from_byte(&b);
                    },
                    ControlCommandIdentifiers::AllowOffOption => {
                        state.allow_off_mode = b != 0;
                    },
                    ControlCommandIdentifiers::ConversationDetectConfig => {
                        state.conversation_awareness = b == 1;
                    },
                    ControlCommandIdentifiers::AllowAutoConnect => {
                        state.auto_connect = Some(b != 0);
                    },
                    ControlCommandIdentifiers::OneBudAncMode => {
                        state.one_bud_anc = b == 1;
                    },
                    ControlCommandIdentifiers::VolumeSwipeMode => {
                        state.volume_swipe = b == 1;
                    },
                    ControlCommandIdentifiers::AdaptiveVolumeConfig => {
                        state.adaptive_volume = b == 1;
                    },
                    ControlCommandIdentifiers::DoubleClickInterval => {
                        state.press_speed = Some(b);
                    },
                    ControlCommandIdentifiers::ClickHoldInterval => {
                        state.press_hold_duration = Some(b);
                    },
                    ControlCommandIdentifiers::ChimeVolume => {
                        state.tone_volume = Some(b);
                    },
                    ControlCommandIdentifiers::VolumeSwipeInterval => {
                        state.volume_swipe_length = Some(b);
                    },
                    ControlCommandIdentifiers::AutoAncStrength => {
                        state.adaptive_noise_level = Some(b);
                    },
                    ControlCommandIdentifiers::OwnsConnection => {},
                }
            }
        },
        AACPEvent::DeviceInfo { .. } => {},
        _ => {},
    }
}

/// The battery slot of one component after a list of readings: the last
/// reading for that component wins.
pub open spec fn spec_battery_slot(
    prev: Option<(u8, BatteryStatus)>,
    infos: Seq<crate::aacp::BatteryInfo>,
    component: BatteryComponent,
) -> Option<(u8, BatteryStatus)>
    decreases infos.len(),
{
    if infos.len() == 0 {
        prev
    } else {
        let rest = spec_battery_slot(prev, infos.drop_last(), component);
        if infos.last().component == component {
            Some((infos.last().level, infos.last().status))
        } else {
            rest
        }
    }
}

/// The status-line battery figure: the smaller of the two bud levels, the
/// one that is known, or zero when neither is.
pub fn battery_percentage(left: Option<u8>, right: Option<u8>) -> (r: u8)
    ensures
        left is Some && right is Some ==> (r == if left->0 <= right->0 {
            left->0
        } else {
            right->0
        }),
        left is Some && right is None ==> r == left->0,
        left is None && right is Some ==> r == right->0,
        left is None && right is None ==> r == 0,
{
    match (left, right) {
        (Some(l), Some(rr)) => if l <= rr {
            l
        } else {
            rr
        },
        (Some(l), None) => l,
        (None, Some(rr)) => rr,
        (None, None) => 0,
    }
}

/// Whether a media service is a remote-control proxy that must never be
/// paused or resumed.
pub fn is_kdeconnect_service(service: &str) -> (r: bool)
    ensures
        r == spec_is_prefix(service@, "org.mpris.MediaPlayer2.kdeconnect.mpris_"@),
{
    str_has_prefix(service, "org.mpris.MediaPlayer2.kdeconnect.mpris_")
}

/// Whether a service name is an MPRIS media player at all.
pub fn is_mpris_service(service: &str) -> (r: bool)
    ensures
        r == spec_is_prefix(service@, "org.mpris.MediaPlayer2."@),
{
    str_has_prefix(service, "org.mpris.MediaPlayer2.")
}

/// One string starts with another.
pub open spec fn spec_is_prefix(s: Seq<char>, p: Seq<char>) -> bool {
    p.len() <= s.len() && s.subrange(0, p.len() as int) == p
}

/// Whether `s` starts with `p`.
fn str_has_prefix(s: &str, p: &str) -> (r: bool)
    ensures
        r == spec_is_prefix(s@, p@),
{
    let n = s.unicode_len();
    let m = p.unicode_len();
    if m > n {
        assert(!spec_is_prefix(s@, p@));
        return false;
    }
    let mut i: usize = 0;
    while i < m
        invariant
            i <= m,
            m <= n,
            n == s@.len(),
            m == p@.len(),
            forall|j: int| 0 <= j < i ==> s@[j] == p@[j],
        decreases m - i,
    {
        if s.get_char(i) != p.get_char(i) {
            assert(s@.subrange(0, m as int)[i as int] != p@[i as int]);
            return false;
        }
        i = i + 1;
    }
    proof {
        assert(s@.subrange(0, m as int) =~= p@);
    }
    true
}

/// One row of the settings section.
#[derive(Clone, Copy, Debug)]
pub enum SettingsItem {
    Toggle { label: &'static str, value: bool, cmd: ControlCommandIdentifiers },
    Enum { label: &'static str, value: u8, option_count: u8, cmd: ControlCommandIdentifiers },
    Slider { label: &'static str, value: u8, min: u8, max: u8, cmd: ControlCommandIdentifiers },
}

/// The command, shape tag, and value of one settings row, for stating
/// which rows a device offers (0 toggle, 1 choice, 2 slider).
pub open spec fn spec_item_entry(it: SettingsItem) -> (ControlCommandIdentifiers, u8, u8) {
    match it {
        SettingsItem::Toggle { value, cmd, .. } => (
            cmd,
            0u8,
            if value {
                1u8
            } else {
                0u8
            },
        ),
        SettingsItem::Enum { value, cmd, .. } => (cmd, 1u8, value),
        SettingsItem::Slider { value, cmd, .. } => (cmd, 2u8, value),
    }
}

/// A default for an optional byte setting.
pub open spec fn spec_or(v: Option<u8>, d: u8) -> u8 {
    match v {
        Some(x) => x,
        None => d,
    }
}

/// The settings rows a device offers, as command, shape, and value
/// triples, in display order.
pub open spec fn spec_settings_entries(s: AirPodsDeviceState) -> Seq<
    (ControlCommandIdentifiers, u8, u8),
> {
    let feats = spec_model_features(s.product_id);
    (if s.has_anc && feats.3 {
        seq![
            (
                ControlCommandIdentifiers::ConversationDetectConfig,
                0u8,
                if s.conversation_awareness {
                    1u8
                } else {
                    0u8
                },
            ),
        ]
    } else {
        Seq::empty()
    }) + (if s.has_anc {
        seq![
            (
                ControlCommandIdentifiers::OneBudAncMode,
                0u8,
                if s.one_bud_anc {
                    1u8
                } else {
                    0u8
                },
            ),
        ]
    } else {
        Seq::empty()
    }) + seq![
        (
            ControlCommandIdentifiers::AdaptiveVolumeConfig,
            0u8,
            if s.adaptive_volume {
                1u8
            } else {
                0u8
            },
        ),
    ] + (if feats.2 {
        seq![
            (
                ControlCommandIdentifiers::VolumeSwipeMode,
                0u8,
                if s.volume_swipe {
                    1u8
                } else {
                    0u8
                },
            ),
            (ControlCommandIdentifiers::DoubleClickInterval, 1u8, spec_or(s.press_speed, 0)),
            (ControlCommandIdentifiers::ClickHoldInterval, 1u8, spec_or(s.press_hold_duration, 0)),
        ]
    } else {
        Seq::empty()
    }) + seq![(ControlCommandIdentifiers::ChimeVolume, 2u8, spec_or(s.tone_volume, 50))] + (if
        feats.2 {
        seq![
            (
                ControlCommandIdentifiers::VolumeSwipeInterval,
                1u8,
                spec_or(s.volume_swipe_length, 0),
            ),
        ]
    } else {
        Seq::empty()
    }) + (if s.has_adaptive && s.listening_mode == AirPodsNoiseControlMode::Adaptive {
        seq![
            (ControlCommandIdentifiers::AutoAncStrength, 2u8, spec_or(s.adaptive_noise_level, 50)),
        ]
    } else {
        Seq::empty()
    }) + seq![
        (
            ControlCommandIdentifiers::AllowAutoConnect,
            0u8,
            match s.auto_connect {
                Some(true) => 1u8,
                Some(false) => 0u8,
                None => 1u8,
            },
        ),
    ]
}

/// The settings rows for one device, in display order.
#[verifier::rlimit(100)]
pub fn settings_items(s: &AirPodsDeviceState) -> (r: Vec<SettingsItem>)
    ensures
        r@.map_values(|it: SettingsItem| spec_item_entry(it)) == spec_settings_entries(*s),
{
    let info = crate::apple_models::model_info(s.product_id);
    let mut items: Vec<SettingsItem> = Vec::new();
    if s.has_anc && info.has_conversation_awareness {
        items.push(
            SettingsItem::Toggle {
                label: "Conversation Awareness",
                value: s.conversation_awareness,
                cmd: ControlCommandIdentifiers::ConversationDetectConfig,
            },
        );
    }
    if s.has_anc {
        items.push(
            SettingsItem::Toggle {
                label: "NC with One AirPod",
                value: s.one_bud_anc,
                cmd: ControlCommandIdentifiers::OneBudAncMode,
            },
        );
    }
    items.push(
        SettingsItem::Toggle {
            label: "Personalized Volume",
            value: s.adaptive_volume,
            cmd: ControlCommandIdentifiers::AdaptiveVolumeConfig,
        },
    );
    if info.has_stem_controls {
        items.push(
            SettingsItem::Toggle {
                label: "Volume Swipe",
                value: s.volume_swipe,
                cmd: ControlCommandIdentifiers::VolumeSwipeMode,
            },
        );
        items.push(
            SettingsItem::Enum {
                label: "Press Speed",
                value: match s.press_speed {
                    Some(v) => v,
                    None => 0,
                },
                option_count: 3,
                cmd: ControlCommandIdentifiers::DoubleClickInterval,
            },
        );
        items.push(
            SettingsItem::Enum {
                label: "Press & Hold",
                value: match s.press_hold_duration {
                    Some(v) => v,
                    None => 0,
                },
                option_count: 3,
                cmd: ControlCommandIdentifiers::ClickHoldInterval,
            },
        );
    }
    items.push(
        SettingsItem::Slider {
            label: "Tone Volume",
            value: match s.tone_volume {
                Some(v) => v,
                None => 50,
            },
            min: 15,
            max: 100,
            cmd: ControlCommandIdentifiers::ChimeVolume,
        },
    );
    if info.has_stem_controls {
        items.push(
            SettingsItem::Enum {
                label: "Volume Swipe Length",
                value: match s.volume_swipe_length {
                    Some(v) => v,
                    None => 0,
                },
                option_count: 3,
                cmd: ControlCommandIdentifiers::VolumeSwipeInterval,
            },
        );
    }
    let adaptive_now = s.has_adaptive && matches!(
        s.listening_mode,
        AirPodsNoiseControlMode::Adaptive,
    );
    if adaptive_now {
        items.push(
            SettingsItem::Slider {
                label: "Adaptive Noise Level",
                value: match s.adaptive_noise_level {
                    Some(v) => v,
                    None => 50,
                },
                min: 0,
                max: 100,
                cmd: ControlCommandIdentifiers::AutoAncStrength,
            },
        );
    }
    items.push(
        SettingsItem::Toggle {
            label: "Auto Connect",
            value: match s.auto_connect {
                Some(v) => v,
                None => true,
            },
            cmd: ControlCommandIdentifiers::AllowAutoConnect,
        },
    );
    proof {
        assert(items@.map_values(|it: SettingsItem| spec_item_entry(it)) =~= spec_settings_entries(
            *s,
        ));
    }
    items
}

/// The themes the terminal UI can draw with.
#[derive(Clone, Copy, Debug, PartialEq, Eq, Structural)]
pub enum MyTheme {
    Light,
    Dark,
    Dracula,
    Nord,
    SolarizedLight,
    SolarizedDark,
    GruvboxLight,
    GruvboxDark,
    CatppuccinLatte,
    CatppuccinFrappe,
    CatppuccinMacchiato,
    CatppuccinMocha,
    TokyoNight,
    TokyoNightStorm,
    TokyoNightLight,
    KanagawaWave,
    KanagawaDragon,
    KanagawaLotus,
    Moonfly,
    Nightfly,
    Oxocarbon,
    Ferra,
}

/// The first index of a device entry with this address, if any.
pub open spec fn spec_find_device(devices: Seq<(String, DeviceState)>, mac: Seq<char>, from: int) -> Option<int>
    decreases devices.len() - from,
{
    if from < 0 || from >= devices.len() {
        None
    } else if devices[from].0@ == mac {
        Some(from)
    } else {
        spec_find_device(devices, mac, from + 1)
    }
}

/// The first index of a device entry with this address, if any.
fn find_device_index(devices: &Vec<(String, DeviceState)>, mac: &String) -> (r: Option<usize>)
    ensures
        spec_find_device(devices@, mac@, 0) == (match r {
            Some(j) => Some(j as int),
            None => None::<int>,
        }),
        r matches Some(j) ==> j < devices@.len() && devices@[j as int].0@ == mac@,
{
    let n = devices.len();
    let mut j: usize = 0;
    while j < n
        invariant
            j <= n,
            n == devices@.len(),
            spec_find_device(devices@, mac@, 0) == spec_find_device(devices@, mac@, j as int),
        decreases n - j,
    {
        if devices[j].0 == *mac {
            return Some(j);
        }
        j = j + 1;
    }
    None
}

/// Fold one link-up announcement into the device table.  A device already
/// in the table keeps everything it has learned — its batteries, settings,
/// and serial number — and only takes the new display name, plus the model
/// details when its product ID arrives late.  An unknown device joins at
/// the end of the table.
pub fn apply_device_connected(
    devices: &mut Vec<(String, DeviceState)>,
    mac: &String,
    name: String,
    is_nothing: bool,
    product_id: u16,
)
    ensures
        ({
            match spec_find_device(old(devices)@, mac@, 0) {
                Some(j) => {
                    &&& final(devices)@.len() == old(devices)@.len()
                    &&& forall|i: int|
                        0 <= i < old(devices)@.len() && i != j ==> final(devices)@[i]
                            == old(devices)@[i]
                    &&& final(devices)@[j].0@ == mac@
                    &&& (old(devices)@[j].1 matches DeviceState::AirPods(s) ==> (final(devices)@[j].1
                        matches DeviceState::AirPods(s2) && s2.name@ == name@ && s2.battery_left
                        == s.battery_left && s2.battery_right == s.battery_right && s2.battery_case
                        == s.battery_case && s2.serial_number == s.serial_number
                        && s2.listening_mode == s.listening_mode && s2.tone_volume == s.tone_volume
                        && s2.auto_connect == s.auto_connect && (product_id != 0 && s.product_id
                        == 0 ==> s2.product_id == product_id) && (product_id == 0 || s.product_id
                        != 0 ==> s2.product_id == s.product_id)))
                    &&& (old(devices)@[j].1 matches DeviceState::Nothing(s) ==> (final(devices)@[j].1
                        matches DeviceState::Nothing(s2) && s2.name@ == name@ && s2.anc_mode
                        == s.anc_mode))
                },
                None => {
                    &&& final(devices)@.len() == old(devices)@.len() + 1
                    &&& forall|i: int|
                        0 <= i < old(devices)@.len() ==> final(devices)@[i] == old(devices)@[i]
                    &&& final(devices)@.last().0@ == mac@
                    &&& (is_nothing ==> (final(devices)@.last().1 matches DeviceState::Nothing(s2)
                        && s2.name@ == name@))
                    &&& (!is_nothing ==> (final(devices)@.last().1 matches DeviceState::AirPods(s2)
                        && s2.name@ == name@ && s2.product_id == product_id))
                },
            }
        }),
{
    let lookup = find_device_index(devices, mac);
    if let Some(j) = lookup {
        assert(spec_find_device(devices@, mac@, 0) == Some(j as int));
        let entry = devices.remove(j);
        let key = entry.0;
        let new_state = match entry.1 {
            DeviceState::AirPods(mut s) => {
                s.name = name;
                if product_id != 0 && s.product_id == 0 {
                    let info = crate::apple_models::model_info(product_id);
                    s.product_id = product_id;
                    s.has_anc = info.has_anc;
                    s.has_adaptive = info.has_adaptive;
                    s.model = Some(String::from_str(info.name));
                }
                DeviceState::AirPods(s)
            },
            DeviceState::Nothing(mut s) => {
                s.name = name;
                DeviceState::Nothing(s)
            },
        };
        devices.insert(j, (key, new_state));
        proof {
            assert(devices@ =~= old(devices)@.update(j as int, devices@[j as int]));
        }
    } else {
        let state = if is_nothing {
            DeviceState::Nothing(NothingDeviceState { name, anc_mode: NothingAncMode::Off })
        } else {
            let mut s = AirPodsDeviceState::new(name);
            let info = crate::apple_models::model_info(product_id);
            s.product_id = product_id;
            s.has_anc = info.has_anc;
            s.has_adaptive = info.has_adaptive;
            if product_id != 0 {
                s.model = Some(String::from_str(info.name));
            }
            DeviceState::AirPods(s)
        };
        devices.push((mac.clone(), state));
    }
}

} // verus!