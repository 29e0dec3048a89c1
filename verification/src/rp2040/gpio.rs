//! GPIO settings of the RP2040 architecture.
use vstd::prelude::*;

use crate::gpio::{DriveStrength as PortableDriveStrength, FromDriveStrength};

verus! {

/// Drive strength of an RP2040 output.
#[allow(non_camel_case_types)]
#[derive(Debug, Copy, Clone, PartialEq, Eq, Structural)]
pub enum DriveStrength {
    /// 2 mA.
    _2mA,
    /// 4 mA.
    _4mA,
    /// 8 mA.
    _8mA,
    /// 12 mA.
    _12mA,
}

impl Default for DriveStrength {
    /// The reset value of the hardware.
    fn default() -> (r: Self)
        ensures
            r == DriveStrength::_4mA,
    {
        DriveStrength::_4mA
    }
}

impl DriveStrength {
    /// The drive current in milliamperes.
    pub open spec fn milliamperes(self) -> int {
        match self {
            DriveStrength::_2mA => 2,
            DriveStrength::_4mA => 4,
            DriveStrength::_8mA => 8,
            DriveStrength::_12mA => 12,
        }
    }
}

impl FromDriveStrength for DriveStrength {
    open spec fn converted(drive_strength: PortableDriveStrength<Self>) -> Self {
        match drive_strength {
            PortableDriveStrength::Arch(d) => d,
            PortableDriveStrength::Lowest => DriveStrength::_2mA,
            PortableDriveStrength::Standard => DriveStrength::_4mA,
            PortableDriveStrength::Medium => DriveStrength::_8mA,
            PortableDriveStrength::High => DriveStrength::_12mA,
            PortableDriveStrength::Highest => DriveStrength::_12mA,
        }
    }

    fn from(drive_strength: PortableDriveStrength<Self>) -> (r: Self) {
        match drive_strength {
            PortableDriveStrength::Arch(d) => d,
            PortableDriveStrength::Lowest => DriveStrength::_2mA,
            PortableDriveStrength::Standard => DriveStrength::default(),
            PortableDriveStrength::Medium => DriveStrength::_8mA,
            PortableDriveStrength::High => DriveStrength::_12mA,
            PortableDriveStrength::Highest => DriveStrength::_12mA,
        }
    }

    proof fn lemma_arch_value_kept(drive_strength: Self) {
    }
}

/// The portable drive-strength levels map to currents that never decrease from the lowest
/// level to the highest.
pub proof fn lemma_portable_levels_ordered(
    a: PortableDriveStrength<DriveStrength>,
    b: PortableDriveStrength<DriveStrength>,
)
    requires
        0 <= a.rank() <= b.rank(),
    ensures
        <DriveStrength as FromDriveStrength>::converted(a).milliamperes()
            <= <DriveStrength as FromDriveStrength>::converted(b).milliamperes(),
{
}

/// The lowest portable level gives the weakest drive of the architecture and the highest
/// portable level its strongest: no drive strength of the architecture lies outside the range
/// that the portable levels reach.
pub proof fn lemma_extreme_levels(d: DriveStrength)
    ensures
        <DriveStrength as FromDriveStrength>::converted(PortableDriveStrength::Lowest).milliamperes()
            <= d.milliamperes(),
        d.milliamperes() <= <DriveStrength as FromDriveStrength>::converted(
            PortableDriveStrength::Highest,
        ).milliamperes(),
{
}

} // verus!
