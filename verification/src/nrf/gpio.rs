//! GPIO settings of the nRF architecture.
use vstd::prelude::*;

use crate::gpio::{DriveStrength as PortableDriveStrength, FromDriveStrength, FromSpeed, GpioArch};
use crate::gpio::Speed as PortableSpeed;

verus! {

/// Drive strength of an nRF output.
#[derive(Debug, Copy, Clone, PartialEq, Eq, Structural)]
pub enum DriveStrength {
    /// Standard drive.
    Standard,
    /// High drive (around 10 mA).
    High,
}

impl Default for DriveStrength {
    fn default() -> (r: Self)
        ensures
            r == DriveStrength::Standard,
    {
        DriveStrength::Standard
    }
}

impl DriveStrength {
    /// The drive level: 0 for the standard drive, 1 for the high drive.
    pub open spec fn drive_level(self) -> int {
        match self {
            DriveStrength::Standard => 0,
            DriveStrength::High => 1,
        }
    }
}

impl FromDriveStrength for DriveStrength {
    open spec fn converted(drive_strength: PortableDriveStrength<Self>) -> Self {
        match drive_strength {
            PortableDriveStrength::Arch(d) => d,
            PortableDriveStrength::Lowest => DriveStrength::Standard,
            PortableDriveStrength::Standard => DriveStrength::Standard,
            PortableDriveStrength::Medium => DriveStrength::Standard,
            PortableDriveStrength::High => DriveStrength::High,
            PortableDriveStrength::Highest => DriveStrength::High,
        }
    }

    fn from(drive_strength: PortableDriveStrength<Self>) -> (r: Self) {
        match drive_strength {
            PortableDriveStrength::Arch(d) => d,
            PortableDriveStrength::Lowest => DriveStrength::Standard,
            PortableDriveStrength::Standard => DriveStrength::default(),
            PortableDriveStrength::Medium => DriveStrength::Standard,
            PortableDriveStrength::High => DriveStrength::High,
            PortableDriveStrength::Highest => DriveStrength::High,
        }
    }

    proof fn lemma_arch_value_kept(drive_strength: Self) {
    }
}

/// Output drive configuration of the nRF GPIO driver.
#[derive(Debug, Copy, Clone, PartialEq, Eq, Structural)]
pub enum OutputDrive {
    /// Standard '0', standard '1'.
    Standard,
    /// High drive '0', high drive '1'.
    HighDrive,
}

/// The output drive configuration for a drive strength.
pub fn output_drive(drive_strength: DriveStrength) -> (r: OutputDrive)
    ensures
        drive_strength == DriveStrength::Standard ==> r == OutputDrive::Standard,
        drive_strength == DriveStrength::High ==> r == OutputDrive::HighDrive,
{
    match drive_strength {
        DriveStrength::Standard => OutputDrive::Standard,
        DriveStrength::High => OutputDrive::HighDrive,
    }
}

/// Speed of an nRF output: not configurable on this architecture.
#[derive(Debug, Copy, Clone, PartialEq, Eq, Structural)]
pub enum Speed {
    /// The only value.
    UnsupportedByArchitecture,
}

impl FromSpeed for Speed {
    open spec fn converted(speed: PortableSpeed<Self>) -> Self {
        Speed::UnsupportedByArchitecture
    }

    fn from(_speed: PortableSpeed<Self>) -> (r: Self) {
        Speed::UnsupportedByArchitecture
    }

    proof fn lemma_arch_value_kept(speed: Self) {
    }
}

/// The nRF architecture, as seen by the GPIO builders.
pub struct Nrf;

impl GpioArch for Nrf {
    type DriveStrength = DriveStrength;

    type Speed = Speed;

    open spec fn schmitt_trigger_configurable() -> bool {
        false
    }

    open spec fn drive_strength_configurable() -> bool {
        true
    }

    open spec fn speed_configurable() -> bool {
        false
    }

    fn is_schmitt_trigger_configurable() -> (r: bool) {
        false
    }

    fn is_drive_strength_configurable() -> (r: bool) {
        true
    }

    fn is_speed_configurable() -> (r: bool) {
        false
    }
}

/// The portable drive-strength levels map to drives that never decrease from the lowest level
/// to the highest.
pub proof fn lemma_portable_levels_ordered(
    a: PortableDriveStrength<DriveStrength>,
    b: PortableDriveStrength<DriveStrength>,
)
    requires
        0 <= a.rank() <= b.rank(),
    ensures
        <DriveStrength as FromDriveStrength>::converted(a).drive_level()
            <= <DriveStrength as FromDriveStrength>::converted(b).drive_level(),
{
}

/// The lowest portable level gives the weakest drive of the architecture and the highest
/// portable level its strongest: no drive strength of the architecture lies outside the range
/// that the portable levels reach.
pub proof fn lemma_extreme_levels(d: DriveStrength)
    ensures
        <DriveStrength as FromDriveStrength>::converted(PortableDriveStrength::Lowest).drive_level()
            <= d.drive_level(),
        d.drive_level() <= <DriveStrength as FromDriveStrength>::converted(
            PortableDriveStrength::Highest,
        ).drive_level(),
{
}

} // verus!
