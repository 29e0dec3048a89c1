//! Output-specific types.
use vstd::prelude::*;

use super::{DriveStrength, FromDriveStrength, FromSpeed, GpioArch, Level, Speed};
use core::marker::PhantomData;

verus! {

/// Builder for a GPIO output of the architecture `A`, on the pin `P`.
pub struct OutputBuilder<A: GpioArch, P> {
    pin: P,
    initial_level: Level,
    drive_strength: DriveStrength<A::DriveStrength>,
    speed: Speed<A::Speed>,
    arch: PhantomData<A>,
}

/// The settings of an output once its builder is finalized, expressed in the architecture's
/// own types, to be handed to the architecture's output driver.
pub struct OutputConfig<A: GpioArch, P> {
    /// The pin.
    pub pin: P,
    /// The level the output starts at.
    pub initial_level: Level,
    /// The architecture's drive strength.
    pub drive_strength: A::DriveStrength,
    /// The architecture's speed.
    pub speed: A::Speed,
}

impl<A: GpioArch, P> OutputBuilder<A, P> {
    /// The pin.
    pub closed spec fn pin_spec(self) -> P {
        self.pin
    }

    /// The level the output is to start at.
    pub closed spec fn initial_level_spec(self) -> Level {
        self.initial_level
    }

    /// The drive strength the output is to use.
    pub closed spec fn drive_strength_spec(self) -> DriveStrength<A::DriveStrength> {
        self.drive_strength
    }

    /// The speed the output is to use.
    pub closed spec fn speed_spec(self) -> Speed<A::Speed> {
        self.speed
    }

    /// Returns a builder for an output on `pin` starting at `initial_level`, with the default
    /// drive strength and speed.
    pub fn new(pin: P, initial_level: Level) -> (r: Self)
        ensures
            r.pin_spec() == pin,
            r.initial_level_spec() == initial_level,
            r.drive_strength_spec() == DriveStrength::<A::DriveStrength>::Standard,
            r.speed_spec() == Speed::<A::Speed>::Low,
    {
        OutputBuilder {
            pin,
            initial_level,
            drive_strength: DriveStrength::default(),
            speed: Speed::default(),
            arch: PhantomData,
        }
    }

    /// Configures the output's drive strength.
    ///
    /// Only architectures that support configuring the drive strength accept it.
    pub fn drive_strength(self, drive_strength: DriveStrength<A::DriveStrength>) -> (r: Self)
        requires
            A::drive_strength_configurable(),
        ensures
            r.pin_spec() == self.pin_spec(),
            r.initial_level_spec() == self.initial_level_spec(),
            r.drive_strength_spec() == drive_strength,
            r.speed_spec() == self.speed_spec(),
    {
        OutputBuilder { drive_strength, ..self }
    }

    /// Configures the output's drive strength if the architecture supports it, and otherwise
    /// leaves the builder unchanged.
    pub fn opt_drive_strength(self, drive_strength: DriveStrength<A::DriveStrength>) -> (r: Self)
        ensures
            r.pin_spec() == self.pin_spec(),
            r.initial_level_spec() == self.initial_level_spec(),
            r.drive_strength_spec() == if A::drive_strength_configurable() {
                drive_strength
            } else {
                self.drive_strength_spec()
            },
            r.speed_spec() == self.speed_spec(),
    {
        if A::is_drive_strength_configurable() {
            OutputBuilder { drive_strength, ..self }
        } else {
            self
        }
    }

    /// Configures the output's speed.
    ///
    /// Only architectures that support configuring the speed accept it.
    pub fn speed(self, speed: Speed<A::Speed>) -> (r: Self)
        requires
            A::speed_configurable(),
        ensures
            r.pin_spec() == self.pin_spec(),
            r.initial_level_spec() == self.initial_level_spec(),
            r.drive_strength_spec() == self.drive_strength_spec(),
            r.speed_spec() == speed,
    {
        OutputBuilder { speed, ..self }
    }

    /// Configures the output's speed if the architecture supports it, and otherwise leaves the
    /// builder unchanged.
    pub fn opt_speed(self, speed: Speed<A::Speed>) -> (r: Self)
        ensures
            r.pin_spec() == self.pin_spec(),
            r.initial_level_spec() == self.initial_level_spec(),
            r.drive_strength_spec() == self.drive_strength_spec(),
            r.speed_spec() == if A::speed_configurable() {
                speed
            } else {
                self.speed_spec()
            },
    {
        if A::is_speed_configurable() {
            OutputBuilder { speed, ..self }
        } else {
            self
        }
    }

    /// Finalizes the builder, converting the drive strength and the speed into the
    /// architecture's own values.
    pub fn build(self) -> (r: OutputConfig<A, P>)
        ensures
            r.pin == self.pin_spec(),
            r.initial_level == self.initial_level_spec(),
            r.drive_strength == <A::DriveStrength as FromDriveStrength>::converted(
                self.drive_strength_spec(),
            ),
            r.speed == <A::Speed as FromSpeed>::converted(self.speed_spec()),
    {
        let drive_strength = <A::DriveStrength as FromDriveStrength>::from(self.drive_strength);
        let speed = <A::Speed as FromSpeed>::from(self.speed);
        OutputConfig { pin: self.pin, initial_level: self.initial_level, drive_strength, speed }
    }
}

} // verus!
