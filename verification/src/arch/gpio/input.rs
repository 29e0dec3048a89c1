//! Stand-in input types.
use vstd::prelude::*;

verus! {

/// Configuring the Schmitt trigger of inputs is not supported.
pub const SCHMITT_TRIGGER_CONFIGURABLE: bool = false;

/// Marker of the pins that can be used as inputs.
pub trait InputPin {}

} // verus!
