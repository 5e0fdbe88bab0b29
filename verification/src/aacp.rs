//! AACP base types: battery readings, ear-detection statuses, stem presses,
//! control-command identifiers, and the byte values each takes on the wire.

use vstd::prelude::*;

verus! {

/// Which part of the headset a battery reading is for.
#[derive(Clone, Copy, Debug, PartialEq, Eq, Structural)]
pub enum BatteryComponent {
    Left,
    Right,
    Case,
    Headphone,
}

/// Charging state of a battery component.
#[derive(Clone, Copy, Debug, PartialEq, Eq, Structural)]
pub enum BatteryStatus {
    Charging,
    NotCharging,
    InUse,
}

/// One battery reading.
#[derive(Clone, Copy, Debug, PartialEq, Eq, Structural)]
pub struct BatteryInfo {
    pub component: BatteryComponent,
    pub level: u8,
    pub status: BatteryStatus,
}

/// Where a bud currently is, as the peer reports it.
#[derive(Clone, Copy, Debug, PartialEq, Eq, Structural)]
pub enum EarDetectionStatus {
    InEar,
    OutOfEar,
    InCase,
}

/// Kind of a stem press.
#[derive(Clone, Copy, Debug, PartialEq, Eq, Structural)]
pub enum StemPressType {
    SinglePress,
    DoublePress,
    TriplePress,
    LongPress,
}

/// Which bud a stem press came from.
#[derive(Clone, Copy, Debug, PartialEq, Eq, Structural)]
pub enum StemPressBud {
    Left,
    Right,
}

/// A peer the buds are connected to, from a connected-peers report.  The
/// two info bytes are not documented and pass through opaquely.
#[derive(Clone, Copy, Debug, PartialEq, Eq)]
pub struct ConnectedDevice {
    pub mac: [u8; 6],
    pub info1: u8,
    pub info2: u8,
}

/// Key kinds a proximity-keys request can ask for.
#[derive(Clone, Copy, Debug, PartialEq, Eq, Structural)]
pub enum ProximityKeyType {
    Irk,
    EncKey,
}

/// Control-command identifiers the session subscribes to or sets.
#[derive(Clone, Copy, Debug, PartialEq, Eq, Structural)]
pub enum ControlCommandIdentifiers {
    OwnsConnection,
    ListeningMode,
    AllowOffOption,
    ConversationDetectConfig,
    OneBudAncMode,
    VolumeSwipeMode,
    AdaptiveVolumeConfig,
    AllowAutoConnect,
    DoubleClickInterval,
    ClickHoldInterval,
    ChimeVolume,
    VolumeSwipeInterval,
    AutoAncStrength,
}

/// A control-command value as received from or sent to the peer.
#[derive(Clone, Debug)]
pub struct ControlCommandStatus {
    pub identifier: ControlCommandIdentifiers,
    pub value: Vec<u8>,
}

/// The LE keys stored for a paired device, as hex text.
#[derive(Clone, Debug)]
pub struct AirPodsLEKeys {
    pub irk: String,
    pub enc_key: String,
}

/// The wire byte of a control-command identifier.
pub open spec fn spec_cc_id_byte(id: ControlCommandIdentifiers) -> u8 {
    match id {
        ControlCommandIdentifiers::OwnsConnection => 1,
        ControlCommandIdentifiers::ListeningMode => 2,
        ControlCommandIdentifiers::AllowOffOption => 3,
        ControlCommandIdentifiers::ConversationDetectConfig => 4,
        ControlCommandIdentifiers::OneBudAncMode => 5,
        ControlCommandIdentifiers::VolumeSwipeMode => 6,
        ControlCommandIdentifiers::AdaptiveVolumeConfig => 7,
        ControlCommandIdentifiers::AllowAutoConnect => 8,
        ControlCommandIdentifiers::DoubleClickInterval => 9,
        ControlCommandIdentifiers::ClickHoldInterval => 10,
        ControlCommandIdentifiers::ChimeVolume => 11,
        ControlCommandIdentifiers::VolumeSwipeInterval => 12,
        ControlCommandIdentifiers::AutoAncStrength => 13,
    }
}

/// The identifier a wire byte names, if any.
pub open spec fn spec_cc_id_of_byte(b: u8) -> Option<ControlCommandIdentifiers> {
    if b == 1 {
        Some(ControlCommandIdentifiers::OwnsConnection)
    } else if b == 2 {
        Some(ControlCommandIdentifiers::ListeningMode)
    } else if b == 3 {
        Some(ControlCommandIdentifiers::AllowOffOption)
    } else if b == 4 {
        Some(ControlCommandIdentifiers::ConversationDetectConfig)
    } else if b == 5 {
        Some(ControlCommandIdentifiers::OneBudAncMode)
    } else if b == 6 {
        Some(ControlCommandIdentifiers::VolumeSwipeMode)
    } else if b == 7 {
        Some(ControlCommandIdentifiers::AdaptiveVolumeConfig)
    } else if b == 8 {
        Some(ControlCommandIdentifiers::AllowAutoConnect)
    } else if b == 9 {
        Some(ControlCommandIdentifiers::DoubleClickInterval)
    } else if b == 10 {
        Some(ControlCommandIdentifiers::ClickHoldInterval)
    } else if b == 11 {
        Some(ControlCommandIdentifiers::ChimeVolume)
    } else if b == 12 {
        Some(ControlCommandIdentifiers::VolumeSwipeInterval)
    } else if b == 13 {
        Some(ControlCommandIdentifiers::AutoAncStrength)
    } else {
        None
    }
}

impl ControlCommandIdentifiers {
    /// The wire byte of this identifier.
    pub fn to_byte(&self) -> (b: u8)
        ensures
            b == spec_cc_id_byte(*self),
    {
        match self {
            ControlCommandIdentifiers::OwnsConnection => 1,
            ControlCommandIdentifiers::ListeningMode => 2,
            ControlCommandIdentifiers::AllowOffOption => 3,
            ControlCommandIdentifiers::ConversationDetectConfig => 4,
            ControlCommandIdentifiers::OneBudAncMode => 5,
            ControlCommandIdentifiers::VolumeSwipeMode => 6,
            ControlCommandIdentifiers::AdaptiveVolumeConfig => 7,
            ControlCommandIdentifiers::AllowAutoConnect => 8,
            ControlCommandIdentifiers::DoubleClickInterval => 9,
            ControlCommandIdentifiers::ClickHoldInterval => 10,
            ControlCommandIdentifiers::ChimeVolume => 11,
            ControlCommandIdentifiers::VolumeSwipeInterval => 12,
            ControlCommandIdentifiers::AutoAncStrength => 13,
        }
    }

    /// The identifier a wire byte names, if any.
    pub fn from_byte(b: u8) -> (r: Option<ControlCommandIdentifiers>)
        ensures
            r == spec_cc_id_of_byte(b),
    {
        if b == 1 {
            Some(ControlCommandIdentifiers::OwnsConnection)
        } else if b == 2 {
            Some(ControlCommandIdentifiers::ListeningMode)
        } else if b == 3 {
            Some(ControlCommandIdentifiers::AllowOffOption)
        } else if b == 4 {
            Some(ControlCommandIdentifiers::ConversationDetectConfig)
        } else if b == 5 {
            Some(ControlCommandIdentifiers::OneBudAncMode)
        } else if b == 6 {
            Some(ControlCommandIdentifiers::VolumeSwipeMode)
        } else if b == 7 {
            Some(ControlCommandIdentifiers::AdaptiveVolumeConfig)
        } else if b == 8 {
            Some(ControlCommandIdentifiers::AllowAutoConnect)
        } else if b == 9 {
            Some(ControlCommandIdentifiers::DoubleClickInterval)
        } else if b == 10 {
            Some(ControlCommandIdentifiers::ClickHoldInterval)
        } else if b == 11 {
            Some(ControlCommandIdentifiers::ChimeVolume)
        } else if b == 12 {
            Some(ControlCommandIdentifiers::VolumeSwipeInterval)
        } else if b == 13 {
            Some(ControlCommandIdentifiers::AutoAncStrength)
        } else {
            None
        }
    }
}

/// An event the session raises on its bus.
#[derive(Clone, Debug)]
pub enum AACPEvent {
    /// Fresh battery readings.
    BatteryInfo(Vec<BatteryInfo>),
    /// Ear detection changed; the old pair, then the new.
    EarDetection {
        old_left: EarDetectionStatus,
        old_right: EarDetectionStatus,
        new_left: EarDetectionStatus,
        new_right: EarDetectionStatus,
    },
    /// A conversational-awareness status byte.
    ConversationalAwareness(u8),
    /// The connected-peers list changed; the old list, then the new.
    ConnectedDevices(Vec<ConnectedDevice>, Vec<ConnectedDevice>),
    /// The peer asks this host to give up audio ownership.
    OwnershipToFalseRequest,
    /// A stem press.
    StemPress(StemPressType, StemPressBud),
    /// A control-command value arrived.
    ControlCommand(ControlCommandStatus),
    /// Device identity details arrived.
    DeviceInfo { name: Vec<u8>, serial_number: Vec<u8> },
}

/// Identifier-to-byte and back is the identity.
pub proof fn lemma_cc_id_byte_round_trip(id: ControlCommandIdentifiers)
    ensures
        spec_cc_id_of_byte(spec_cc_id_byte(id)) == Some(id),
{
}

} // verus!
