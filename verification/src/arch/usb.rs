//! Stand-in USB driver types.
use vstd::prelude::*;

verus! {

/// Stand-in USB driver.
pub struct UsbDriver;

/// Stand-in OUT endpoint.
pub struct DummyEndpointOut;

/// Stand-in IN endpoint.
pub struct DummyEndpointIn;

/// Stand-in control pipe.
pub struct DummyControlPipe;

/// Stand-in USB bus.
pub struct DummyBus;

} // verus!
