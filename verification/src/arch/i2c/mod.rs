//! Stand-in I2C types.
pub mod controller;

use vstd::prelude::*;

verus! {

/// Peripheral-agnostic I2C driver. Its variants are specific to each MCU; there are none here
/// but a placeholder.
#[derive(Debug, Copy, Clone, PartialEq, Eq, Structural)]
pub enum I2c {
    Hidden,
}

} // verus!
