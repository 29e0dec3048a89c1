//! GPIO settings of the ESP32-C6.
use vstd::prelude::*;

use crate::gpio::{DriveStrength as PortableDriveStrength, FromDriveStrength, FromSpeed, GpioArch};
use crate::gpio::Speed as PortableSpeed;

verus! {

/// Drive strength of an ESP32-C6 output.
#[allow(non_camel_case_types)]
#[derive(Debug, Copy, Clone, PartialEq, Eq, Structural)]
pub enum DriveStrength {
    /// 5 mA.
    _5mA,
    /// 10 mA.
    _10mA,
    /// 20 mA.
    _20mA,
    /// 40 mA.
    _40mA,
}

impl DriveStrength {
    /// The drive current in milliamperes.
    pub open spec fn milliamperes(self) -> int {
        match self {
            DriveStrength::_5mA => 5,
            DriveStrength::_10mA => 10,
            DriveStrength::_20mA => 20,
            DriveStrength::_40mA => 40,
        }
    }
}

impl FromDriveStrength for DriveStrength {
    /// ESP32-C6 outputs can drive up to 40 mA; the portable levels are spread over that range.
    open spec fn converted(drive_strength: PortableDriveStrength<Self>) -> Self {
        match drive_strength {
            PortableDriveStrength::Arch(d) => d,
            PortableDriveStrength::Lowest => DriveStrength::_5mA,
            PortableDriveStrength::Standard => DriveStrength::_10mA,
            PortableDriveStrength::Medium => DriveStrength::_10mA,
            PortableDriveStrength::High => DriveStrength::_20mA,
            PortableDriveStrength::Highest => DriveStrength::_40mA,
        }
    }

    fn from(drive_strength: PortableDriveStrength<Self>) -> (r: Self) {
        match drive_strength {
            PortableDriveStrength::Arch(d) => d,
            PortableDriveStrength::Lowest => DriveStrength::_5mA,
            PortableDriveStrength::Standard => DriveStrength::_10mA,
            PortableDriveStrength::Medium => DriveStrength::_10mA,
            PortableDriveStrength::High => DriveStrength::_20mA,
            PortableDriveStrength::Highest => DriveStrength::_40mA,
        }
    }

    proof fn lemma_arch_value_kept(drive_strength: Self) {
    }
}

/// Speed of an ESP32-C6 output: not configurable on this hardware.
#[derive(Debug, Copy, Clone, PartialEq, Eq, Structural)]
pub enum Speed {
    /// The only value.
    UnsupportedByHardware,
}

impl FromSpeed for Speed {
    open spec fn converted(speed: PortableSpeed<Self>) -> Self {
        Speed::UnsupportedByHardware
    }

    fn from(_speed: PortableSpeed<Self>) -> (r: Self) {
        Speed::UnsupportedByHardware
    }

    proof fn lemma_arch_value_kept(speed: Self) {
    }
}

/// The ESP32-C6, as seen by the GPIO builders.
pub struct Esp32c6;

impl GpioArch for Esp32c6 {
    type DriveStrength = DriveStrength;

    type Speed = Speed;

    open spec fn schmitt_trigger_configurable() -> bool {
        false
    }

    open spec fn drive_strength_configurable() -> bool {
        true
    }

    open spec fn speed_configurable() -> bool {
        false
    }

    fn is_schmitt_trigger_configurable() -> (r: bool) {
        false
    }

    fn is_drive_strength_configurable() -> (r: bool) {
        true
    }

    fn is_speed_configurable() -> (r: bool) {
        false
    }
}

/// The portable drive-strength levels map to currents that never decrease from the lowest
/// level to the highest.
pub proof fn lemma_portable_levels_ordered(
    a: PortableDriveStrength<DriveStrength>,
    b: PortableDriveStrength<DriveStrength>,
)
    requires
        0 <= a.rank() <= b.rank(),
    ensures
        <DriveStrength as FromDriveStrength>::converted(a).milliamperes()
            <= <DriveStrength as FromDriveStrength>::converted(b).milliamperes(),
{
}

/// The lowest portable level gives the weakest drive of the architecture and the highest
/// portable level its strongest: no drive strength of the architecture lies outside the range
/// that the portable levels reach.
pub proof fn lemma_extreme_levels(d: DriveStrength)
    ensures
        <DriveStrength as FromDriveStrength>::converted(PortableDriveStrength::Lowest).milliamperes()
            <= d.milliamperes(),
        d.milliamperes() <= <DriveStrength as FromDriveStrength>::converted(
            PortableDriveStrength::Highest,
        ).milliamperes(),
{
}

} // verus!
