//! Device-level data: device kinds, stored records, per-kind state, and
//! the wire bytes of the noise-control modes.

use crate::aacp::{AirPodsLEKeys, BatteryInfo};
use vstd::prelude::*;

verus! {

/// The kind of a managed device.
#[derive(Clone, Copy, Debug, PartialEq, Eq, Structural)]
pub enum DeviceType {
    AirPods,
    Nothing,
}

/// Everything stored about one AirPods-class device.
#[derive(Clone, Debug)]
pub struct AirPodsInformation {
    pub name: String,
    pub model_number: String,
    pub manufacturer: String,
    pub serial_number: String,
    pub version1: String,
    pub version2: String,
    pub hardware_revision: String,
    pub updater_identifier: String,
    pub left_serial_number: String,
    pub right_serial_number: String,
    pub version3: String,
    pub le_keys: AirPodsLEKeys,
}

/// Everything stored about one Nothing Ear device.
#[derive(Clone, Debug)]
pub struct NothingInformation {
    pub serial_number: String,
    pub firmware_version: String,
}

/// Stored details of a device, by kind.
#[derive(Clone, Debug)]
pub enum DeviceInformation {
    AirPods(AirPodsInformation),
    Nothing(NothingInformation),
}

/// One entry of the on-disk device list.
#[derive(Clone, Debug)]
pub struct DeviceData {
    pub name: String,
    pub type_: DeviceType,
    pub information: Option<DeviceInformation>,
}

/// Live state of a device, by kind.
#[derive(Clone, Debug)]
pub enum DeviceState {
    AirPods(AirPodsState),
    Nothing(NothingState),
}

/// Live state of an AirPods-class device.
#[derive(Clone, Debug)]
pub struct AirPodsState {
    pub device_name: String,
    pub noise_control_mode: AirPodsNoiseControlMode,
    pub conversation_awareness_enabled: bool,
    pub personalized_volume_enabled: bool,
    pub allow_off_mode: bool,
    pub battery: Vec<BatteryInfo>,
}

/// The listening modes of an AirPods-class device.
#[derive(Clone, Copy, Debug, PartialEq, Eq, Structural)]
pub enum AirPodsNoiseControlMode {
    Off,
    NoiseCancellation,
    Transparency,
    Adaptive,
}

/// The wire byte of a listening mode.
pub open spec fn spec_noise_mode_byte(m: AirPodsNoiseControlMode) -> u8 {
    match m {
        AirPodsNoiseControlMode::Off => 1,
        AirPodsNoiseControlMode::NoiseCancellation => 2,
        AirPodsNoiseControlMode::Transparency => 3,
        AirPodsNoiseControlMode::Adaptive => 4,
    }
}

/// The listening mode a wire byte names; unknown bytes fall back to `Off`.
pub open spec fn spec_noise_mode_of_byte(b: u8) -> AirPodsNoiseControlMode {
    if b == 2 {
        AirPodsNoiseControlMode::NoiseCancellation
    } else if b == 3 {
        AirPodsNoiseControlMode::Transparency
    } else if b == 4 {
        AirPodsNoiseControlMode::Adaptive
    } else {
        AirPodsNoiseControlMode::Off
    }
}

impl AirPodsNoiseControlMode {
    /// The listening mode a wire byte names; unknown bytes fall back to
    /// `Off`.
    pub fn from_byte(value: &u8) -> (r: Self)
        ensures
            r == spec_noise_mode_of_byte(*value),
    {
        if *value == 2 {
            AirPodsNoiseControlMode::NoiseCancellation
        } else if *value == 3 {
            AirPodsNoiseControlMode::Transparency
        } else if *value == 4 {
            AirPodsNoiseControlMode::Adaptive
        } else {
            AirPodsNoiseControlMode::Off
        }
    }

    /// The wire byte of this listening mode.
    pub fn to_byte(&self) -> (r: u8)
        ensures
            r == spec_noise_mode_byte(*self),
    {
        match self {
            AirPodsNoiseControlMode::Off => 1,
            AirPodsNoiseControlMode::NoiseCancellation => 2,
            AirPodsNoiseControlMode::Transparency => 3,
            AirPodsNoiseControlMode::Adaptive => 4,
        }
    }
}

/// Mode-to-byte and back is the identity.
pub proof fn lemma_noise_mode_round_trip(m: AirPodsNoiseControlMode)
    ensures
        spec_noise_mode_of_byte(spec_noise_mode_byte(m)) == m,
{
}

/// Live state of a Nothing Ear device.
#[derive(Clone, Debug)]
pub struct NothingState {
    pub anc_mode: NothingAncMode,
}

/// The noise-control modes of a Nothing Ear device.
#[derive(Clone, Copy, Debug, PartialEq, Eq, Structural)]
pub enum NothingAncMode {
    Off,
    LowNoiseCancellation,
    MidNoiseCancellation,
    HighNoiseCancellation,
    AdaptiveNoiseCancellation,
    Transparency,
}

/// The wire byte of a Nothing noise-control mode.
pub open spec fn spec_nothing_anc_byte(m: NothingAncMode) -> u8 {
    match m {
        NothingAncMode::LowNoiseCancellation => 3,
        NothingAncMode::MidNoiseCancellation => 2,
        NothingAncMode::HighNoiseCancellation => 1,
        NothingAncMode::AdaptiveNoiseCancellation => 4,
        NothingAncMode::Transparency => 7,
        NothingAncMode::Off => 5,
    }
}

/// The Nothing mode a wire byte names; unknown bytes fall back to `Off`.
pub open spec fn spec_nothing_anc_of_byte(b: u8) -> NothingAncMode {
    if b == 3 {
        NothingAncMode::LowNoiseCancellation
    } else if b == 2 {
        NothingAncMode::MidNoiseCancellation
    } else if b == 1 {
        NothingAncMode::HighNoiseCancellation
    } else if b == 4 {
        NothingAncMode::AdaptiveNoiseCancellation
    } else if b == 7 {
        NothingAncMode::Transparency
    } else {
        NothingAncMode::Off
    }
}

impl NothingAncMode {
    /// The mode a wire byte names; unknown bytes fall back to `Off`.
    pub fn from_byte(value: u8) -> (r: Self)
        ensures
            r == spec_nothing_anc_of_byte(value),
    {
        if value == 3 {
            NothingAncMode::LowNoiseCancellation
        } else if value == 2 {
            NothingAncMode::MidNoiseCancellation
        } else if value == 1 {
            NothingAncMode::HighNoiseCancellation
        } else if value == 4 {
            NothingAncMode::AdaptiveNoiseCancellation
        } else if value == 7 {
            NothingAncMode::Transparency
        } else {
            NothingAncMode::Off
        }
    }

    /// The wire byte of this mode.
    pub fn to_byte(&self) -> (r: u8)
        ensures
            r == spec_nothing_anc_byte(*self),
    {
        match self {
            NothingAncMode::LowNoiseCancellation => 3,
            NothingAncMode::MidNoiseCancellation => 2,
            NothingAncMode::HighNoiseCancellation => 1,
            NothingAncMode::AdaptiveNoiseCancellation => 4,
            NothingAncMode::Transparency => 7,
            NothingAncMode::Off => 5,
        }
    }
}

/// Mode-to-byte and back is the identity.
pub proof fn lemma_nothing_anc_round_trip(m: NothingAncMode)
    ensures
        spec_nothing_anc_of_byte(spec_nothing_anc_byte(m)) == m,
{
}

} // verus!
