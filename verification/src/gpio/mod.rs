//! Architecture-independent GPIO types, and the builders that configure inputs and outputs.
pub mod input;
pub mod output;

use vstd::prelude::*;

verus! {

/// Digital level of a pin.
#[derive(Debug, Copy, Clone, PartialEq, Eq, Structural)]
pub enum Level {
    /// Low level.
    Low,
    /// High level.
    High,
}

impl Level {
    /// Whether the level is high.
    pub open spec fn is_high_spec(self) -> bool {
        self == Level::High
    }

    /// Returns the level that `high` denotes: high for `true`, low for `false`.
    pub fn from_bool(high: bool) -> (r: Level)
        ensures
            r.is_high_spec() == high,
    {
        if high {
            Level::High
        } else {
            Level::Low
        }
    }

    /// Returns `true` for the high level and `false` for the low level.
    pub fn into_bool(self) -> (r: bool)
        ensures
            r == self.is_high_spec(),
    {
        match self {
            Level::Low => false,
            Level::High => true,
        }
    }
}

/// Pull-up or pull-down resistor configuration of an input.
#[derive(Debug, Copy, Clone, PartialEq, Eq, Structural)]
pub enum Pull {
    /// No pull resistor (floating input).
    Floating,
    /// Pull-up resistor.
    Up,
    /// Pull-down resistor.
    Down,
}

/// Drive strength of an output, either one of the portable levels or a value specific to the
/// architecture (`A`).
#[derive(Debug, Copy, Clone, PartialEq, Eq)]
pub enum DriveStrength<A> {
    /// A drive strength specific to the architecture.
    Arch(A),
    /// The lowest drive strength the architecture supports.
    Lowest,
    /// The drive strength the architecture uses by default.
    Standard,
    /// A medium drive strength.
    Medium,
    /// A high drive strength.
    High,
    /// The highest drive strength the architecture supports.
    Highest,
}

impl<A> DriveStrength<A> {
    /// Rank of a portable level, from 0 for the lowest to 4 for the highest; architecture-specific
    /// values have no rank.
    pub open spec fn rank(self) -> int {
        match self {
            DriveStrength::Arch(_) => -1,
            DriveStrength::Lowest => 0,
            DriveStrength::Standard => 1,
            DriveStrength::Medium => 2,
            DriveStrength::High => 3,
            DriveStrength::Highest => 4,
        }
    }
}

impl<A> Default for DriveStrength<A> {
    fn default() -> (r: Self)
        ensures
            r == DriveStrength::<A>::Standard,
    {
        DriveStrength::Standard
    }
}

/// Speed (slew rate) of an output, either one of the portable levels or a value specific to the
/// architecture (`A`).
#[derive(Debug, Copy, Clone, PartialEq, Eq)]
pub enum Speed<A> {
    /// A speed specific to the architecture.
    Arch(A),
    /// Low speed.
    Low,
    /// Medium speed.
    Medium,
    /// High speed.
    High,
    /// Very high speed.
    VeryHigh,
}

impl<A> Default for Speed<A> {
    fn default() -> (r: Self)
        ensures
            r == Speed::<A>::Low,
    {
        Speed::Low
    }
}

/// Conversion of a portable drive strength into the architecture's own drive strength.
pub trait FromDriveStrength: Sized {
    /// The architecture's drive strength for `drive_strength`.
    spec fn converted(drive_strength: DriveStrength<Self>) -> Self;

    /// Returns the architecture's drive strength for `drive_strength`.
    fn from(drive_strength: DriveStrength<Self>) -> (r: Self)
        ensures
            r == Self::converted(drive_strength),
    ;

    /// A drive strength given in the architecture's own terms is kept as it is.
    proof fn lemma_arch_value_kept(drive_strength: Self)
        ensures
            Self::converted(DriveStrength::Arch(drive_strength)) == drive_strength,
    ;
}

/// Conversion of a portable speed into the architecture's own speed.
pub trait FromSpeed: Sized {
    /// The architecture's speed for `speed`.
    spec fn converted(speed: Speed<Self>) -> Self;

    /// Returns the architecture's speed for `speed`.
    fn from(speed: Speed<Self>) -> (r: Self)
        ensures
            r == Self::converted(speed),
    ;

    /// A speed given in the architecture's own terms is kept as it is.
    proof fn lemma_arch_value_kept(speed: Self)
        ensures
            Self::converted(Speed::Arch(speed)) == speed,
    ;
}

/// What an architecture lets the GPIO builders configure, and its own drive strength and
/// speed types.
pub trait GpioArch {
    /// The architecture's drive strength.
    type DriveStrength: FromDriveStrength + Copy;

    /// The architecture's speed.
    type Speed: FromSpeed + Copy;

    /// Whether the Schmitt trigger of inputs can be configured.
    spec fn schmitt_trigger_configurable() -> bool;

    /// Whether the drive strength of outputs can be configured.
    spec fn drive_strength_configurable() -> bool;

    /// Whether the speed of outputs can be configured.
    spec fn speed_configurable() -> bool;

    /// Returns whether the Schmitt trigger of inputs can be configured.
    fn is_schmitt_trigger_configurable() -> (r: bool)
        ensures
            r == Self::schmitt_trigger_configurable(),
    ;

    /// Returns whether the drive strength of outputs can be configured.
    fn is_drive_strength_configurable() -> (r: bool)
        ensures
            r == Self::drive_strength_configurable(),
    ;

    /// Returns whether the speed of outputs can be configured.
    fn is_speed_configurable() -> (r: bool)
        ensures
            r == Self::speed_configurable(),
    ;
}

} // verus!
