//! Architecture used when no hardware architecture is selected, so that the
//! architecture-independent code can be built, documented and tested on a host.
pub mod executor;
pub mod gpio;
pub mod i2c;
pub mod spi;
pub mod usb;

use vstd::prelude::*;

verus! {

/// Stand-in for the optional peripherals of a hardware architecture.
#[derive(Debug, Copy, Clone, PartialEq, Eq, Structural)]
pub struct OptionalPeripherals;

/// Stand-in for the peripherals of a hardware architecture.
#[derive(Debug, Copy, Clone, PartialEq, Eq, Structural)]
pub struct Peripherals;

impl From<Peripherals> for OptionalPeripherals {
    fn from(_peripherals: Peripherals) -> (r: Self) {
        OptionalPeripherals
    }
}

impl vstd::std_specs::convert::FromSpecImpl<Peripherals> for OptionalPeripherals {
    open spec fn obeys_from_spec() -> bool {
        true
    }

    open spec fn from_spec(p: Peripherals) -> OptionalPeripherals {
        OptionalPeripherals
    }
}

/// Stand-in for the software interrupt that drives the interrupt-mode executor.
#[derive(Debug, Copy, Clone, PartialEq, Eq, Structural)]
pub struct SWI;

} // verus!
