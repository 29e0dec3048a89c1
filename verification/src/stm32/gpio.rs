//! GPIO settings of the STM32 architecture.
use vstd::prelude::*;

use crate::gpio::{DriveStrength as PortableDriveStrength, FromDriveStrength, FromSpeed, GpioArch};
use crate::gpio::Speed as PortableSpeed;

verus! {

/// Drive strength of an STM32 output: not configurable on this architecture.
#[derive(Debug, Copy, Clone, PartialEq, Eq, Structural)]
pub enum DriveStrength {
    /// The only value.
    UnsupportedByArchitecture,
}

impl Default for DriveStrength {
    fn default() -> (r: Self)
        ensures
            r == DriveStrength::UnsupportedByArchitecture,
    {
        DriveStrength::UnsupportedByArchitecture
    }
}

impl FromDriveStrength for DriveStrength {
    open spec fn converted(drive_strength: PortableDriveStrength<Self>) -> Self {
        match drive_strength {
            PortableDriveStrength::Arch(d) => d,
            _ => DriveStrength::UnsupportedByArchitecture,
        }
    }

    fn from(drive_strength: PortableDriveStrength<Self>) -> (r: Self) {
        match drive_strength {
            PortableDriveStrength::Arch(d) => d,
            PortableDriveStrength::Lowest => DriveStrength::UnsupportedByArchitecture,
            PortableDriveStrength::Standard => DriveStrength::default(),
            PortableDriveStrength::Medium => DriveStrength::UnsupportedByArchitecture,
            PortableDriveStrength::High => DriveStrength::UnsupportedByArchitecture,
            PortableDriveStrength::Highest => DriveStrength::UnsupportedByArchitecture,
        }
    }

    proof fn lemma_arch_value_kept(drive_strength: Self) {
    }
}

/// Speed of an STM32 output.
#[derive(Debug, Copy, Clone, PartialEq, Eq, Structural)]
pub enum Speed {
    /// Low speed.
    Low,
    /// Medium speed.
    Medium,
    /// High speed.
    High,
    /// Very high speed.
    VeryHigh,
}

impl FromSpeed for Speed {
    open spec fn converted(speed: PortableSpeed<Self>) -> Self {
        match speed {
            PortableSpeed::Arch(s) => s,
            PortableSpeed::Low => Speed::Low,
            PortableSpeed::Medium => Speed::Medium,
            PortableSpeed::High => Speed::High,
            PortableSpeed::VeryHigh => Speed::VeryHigh,
        }
    }

    fn from(speed: PortableSpeed<Self>) -> (r: Self) {
        match speed {
            PortableSpeed::Arch(s) => s,
            PortableSpeed::Low => Speed::Low,
            PortableSpeed::Medium => Speed::Medium,
            PortableSpeed::High => Speed::High,
            PortableSpeed::VeryHigh => Speed::VeryHigh,
        }
    }

    proof fn lemma_arch_value_kept(speed: Self) {
    }
}

/// The STM32 architecture, as seen by the GPIO builders.
pub struct Stm32;

impl GpioArch for Stm32 {
    type DriveStrength = DriveStrength;

    type Speed = Speed;

    open spec fn schmitt_trigger_configurable() -> bool {
        false
    }

    open spec fn drive_strength_configurable() -> bool {
        false
    }

    open spec fn speed_configurable() -> bool {
        true
    }

    fn is_schmitt_trigger_configurable() -> (r: bool) {
        false
    }

    fn is_drive_strength_configurable() -> (r: bool) {
        false
    }

    fn is_speed_configurable() -> (r: bool) {
        true
    }
}

} // verus!
