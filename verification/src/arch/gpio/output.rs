//! Stand-in output types.
use vstd::prelude::*;

use core::marker::PhantomData;

verus! {

/// Configuring the drive strength of outputs is not supported.
pub const DRIVE_STRENGTH_CONFIGURABLE: bool = false;

/// Configuring the speed of outputs is not supported.
pub const SPEED_CONFIGURABLE: bool = false;

/// Marker of the pins that can be used as outputs.
pub trait OutputPin {}

/// Stand-in output driver.
pub struct Output<'d> {
    _marker: PhantomData<&'d ()>,
}

} // verus!
