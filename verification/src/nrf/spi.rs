//! SPI settings of the nRF architecture.
use vstd::prelude::*;

use crate::spi::{Phase, Polarity};

verus! {

/// SPI mode.
#[derive(Debug, Copy, Clone, PartialEq, Eq, Structural)]
pub enum Mode {
    /// CPOL = 0, CPHA = 0.
    Mode0,
    /// CPOL = 0, CPHA = 1.
    Mode1,
    /// CPOL = 1, CPHA = 0.
    Mode2,
    /// CPOL = 1, CPHA = 1.
    Mode3,
}

impl Mode {
    /// The portable mode of the same number.
    pub open spec fn portable(self) -> crate::spi::Mode {
        match self {
            Mode::Mode0 => crate::spi::Mode::Mode0,
            Mode::Mode1 => crate::spi::Mode::Mode1,
            Mode::Mode2 => crate::spi::Mode::Mode2,
            Mode::Mode3 => crate::spi::Mode::Mode3,
        }
    }

    /// Returns the clock polarity and phase of the mode, as the driver's mode constants
    /// hold them.
    pub fn polarity_and_phase(self) -> (r: (Polarity, Phase))
        ensures
            r == crate::spi::polarity_and_phase_spec(self.portable()),
    {
        match self {
            Mode::Mode0 => (Polarity::IdleLow, Phase::CaptureOnFirstTransition),
            Mode::Mode1 => (Polarity::IdleLow, Phase::CaptureOnSecondTransition),
            Mode::Mode2 => (Polarity::IdleHigh, Phase::CaptureOnFirstTransition),
            Mode::Mode3 => (Polarity::IdleHigh, Phase::CaptureOnSecondTransition),
        }
    }
}

/// Order in which bits are transmitted.
#[derive(Debug, Copy, Clone, PartialEq, Eq, Structural)]
pub enum BitOrder {
    /// Most significant bit first.
    MsbFirst,
    /// Least significant bit first.
    LsbFirst,
}

/// SPI bus frequency of the nRF SPI (SPIM) driver.
#[derive(Debug, Copy, Clone, PartialEq, Eq, Structural)]
pub enum Frequency {
    /// 125 kbps.
    K125,
    /// 250 kbps.
    K250,
    /// 500 kbps.
    K500,
    /// 1 Mbps.
    M1,
    /// 2 Mbps.
    M2,
    /// 4 Mbps.
    M4,
    /// 8 Mbps.
    M8,
}

/// SPI bus configuration.
#[derive(Debug, Copy, Clone, PartialEq, Eq, Structural)]
pub struct Config {
    /// The bus frequency.
    pub frequency: Frequency,
    /// The SPI mode.
    pub mode: Mode,
    /// The bit order.
    pub bit_order: BitOrder,
}

impl Default for Config {
    fn default() -> (r: Self)
        ensures
            r.frequency == Frequency::M1,
            r.mode == Mode::Mode0,
            r.bit_order == BitOrder::MsbFirst,
    {
        Config { frequency: Frequency::M1, mode: Mode::Mode0, bit_order: BitOrder::MsbFirst }
    }
}

} // verus!
