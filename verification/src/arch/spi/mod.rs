//! Stand-in SPI types.
pub mod main;

use vstd::prelude::*;

verus! {

/// Peripheral-agnostic SPI driver. Its variants are specific to each MCU; there are none here
/// but a placeholder.
#[derive(Debug, Copy, Clone, PartialEq, Eq, Structural)]
pub enum Spi {
    Hidden,
}

} // verus!
