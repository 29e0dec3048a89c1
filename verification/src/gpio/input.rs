//! Input-specific types.
use vstd::prelude::*;

use super::{GpioArch, Pull};
use core::marker::PhantomData;

verus! {

/// Builder for a GPIO input of the architecture `A`, on the pin `P`.
pub struct InputBuilder<A, P> {
    pin: P,
    pull: Pull,
    schmitt_trigger: bool,
    arch: PhantomData<A>,
}

/// The settings of an input once its builder is finalized, to be handed to the
/// architecture's input driver.
pub struct InputConfig<P> {
    /// The pin.
    pub pin: P,
    /// The pull resistor configuration.
    pub pull: Pull,
    /// Whether the Schmitt trigger is enabled.
    pub schmitt_trigger: bool,
}

impl<A: GpioArch, P> InputBuilder<A, P> {
    /// The pin.
    pub closed spec fn pin_spec(self) -> P {
        self.pin
    }

    /// The pull resistor configuration.
    pub closed spec fn pull_spec(self) -> Pull {
        self.pull
    }

    /// Whether the Schmitt trigger is to be enabled.
    pub closed spec fn schmitt_trigger_spec(self) -> bool {
        self.schmitt_trigger
    }

    /// Returns a builder for an input on `pin` with the given pull configuration, with the
    /// Schmitt trigger disabled.
    pub fn new(pin: P, pull: Pull) -> (r: Self)
        ensures
            r.pin_spec() == pin,
            r.pull_spec() == pull,
            !r.schmitt_trigger_spec(),
    {
        InputBuilder { pin, pull, schmitt_trigger: false, arch: PhantomData }
    }

    /// Configures the input's Schmitt trigger.
    ///
    /// Only architectures that support configuring the Schmitt trigger accept it.
    pub fn schmitt_trigger(self, enable: bool) -> (r: Self)
        requires
            A::schmitt_trigger_configurable(),
        ensures
            r.pin_spec() == self.pin_spec(),
            r.pull_spec() == self.pull_spec(),
            r.schmitt_trigger_spec() == enable,
    {
        InputBuilder { schmitt_trigger: enable, ..self }
    }

    /// Configures the input's Schmitt trigger if the architecture supports it, and otherwise
    /// leaves the builder unchanged.
    pub fn opt_schmitt_trigger(self, enable: bool) -> (r: Self)
        ensures
            r.pin_spec() == self.pin_spec(),
            r.pull_spec() == self.pull_spec(),
            r.schmitt_trigger_spec() == if A::schmitt_trigger_configurable() {
                enable
            } else {
                self.schmitt_trigger_spec()
            },
    {
        if A::is_schmitt_trigger_configurable() {
            InputBuilder { schmitt_trigger: enable, ..self }
        } else {
            self
        }
    }

    /// Finalizes the builder.
    pub fn build(self) -> (r: InputConfig<P>)
        ensures
            r.pin == self.pin_spec(),
            r.pull == self.pull_spec(),
            r.schmitt_trigger == self.schmitt_trigger_spec(),
    {
        InputConfig { pin: self.pin, pull: self.pull, schmitt_trigger: self.schmitt_trigger }
    }
}

} // verus!
