//! SPI settings of the RP2040 architecture.
use vstd::prelude::*;

use crate::spi::{polarity_and_phase_spec, Mode, Phase, Polarity};

verus! {

/// SPI bus frequency.
#[allow(non_camel_case_types)]
#[derive(Debug, Copy, Clone, PartialEq, Eq, Structural)]
pub enum Frequency {
    /// 125 kHz.
    _125k,
    /// 250 kHz.
    _250k,
    /// 500 kHz.
    _500k,
    /// 1 MHz.
    _1M,
    /// 2 MHz.
    _2M,
    /// 4 MHz.
    _4M,
    /// 8 MHz.
    _8M,
    /// 16 MHz.
    _16M,
    /// 32 MHz.
    _32M,
}

impl Frequency {
    /// The value, in hertz, handed to the SPI driver's configuration.
    pub open spec fn hertz_spec(self) -> int {
        match self {
            Frequency::_125k => 125_000,
            Frequency::_250k => 250_000,
            Frequency::_500k => 500_000,
            Frequency::_1M => 1_000_000,
            Frequency::_2M => 2_000_000,
            Frequency::_4M => 4_000_000,
            Frequency::_8M => 8_000_000,
            Frequency::_16M => 16_000_000,
            Frequency::_32M => 32_000_000,
        }
    }

    /// Returns the value, in hertz, handed to the SPI driver's configuration.
    pub fn to_hertz(self) -> (r: u32)
        ensures
            r == self.hertz_spec(),
    {
        match self {
            Frequency::_125k => 125_000,
            Frequency::_250k => 250_000,
            Frequency::_500k => 500_000,
            Frequency::_1M => 1_000_000,
            Frequency::_2M => 2_000_000,
            Frequency::_4M => 4_000_000,
            Frequency::_8M => 8_000_000,
            Frequency::_16M => 16_000_000,
            Frequency::_32M => 32_000_000,
        }
    }
}

impl Frequency {
    /// The number in the frequency's name: 125 for 125 kHz, 16 for 16 MHz.
    pub open spec fn number_in_name(self) -> int {
        match self {
            Frequency::_125k => 125,
            Frequency::_250k => 250,
            Frequency::_500k => 500,
            Frequency::_1M => 1,
            Frequency::_2M => 2,
            Frequency::_4M => 4,
            Frequency::_8M => 8,
            Frequency::_16M => 16,
            Frequency::_32M => 32,
        }
    }

    /// Whether the frequency's name counts in megahertz rather than in kilohertz.
    pub open spec fn named_in_megahertz(self) -> bool {
        match self {
            Frequency::_125k => false,
            Frequency::_250k => false,
            Frequency::_500k => false,
            Frequency::_1M => true,
            Frequency::_2M => true,
            Frequency::_4M => true,
            Frequency::_8M => true,
            Frequency::_16M => true,
            Frequency::_32M => true,
        }
    }

    /// The next faster frequency, in the order the frequencies are listed.
    pub open spec fn faster(self) -> Option<Frequency> {
        match self {
            Frequency::_125k => Some(Frequency::_250k),
            Frequency::_250k => Some(Frequency::_500k),
            Frequency::_500k => Some(Frequency::_1M),
            Frequency::_1M => Some(Frequency::_2M),
            Frequency::_2M => Some(Frequency::_4M),
            Frequency::_4M => Some(Frequency::_8M),
            Frequency::_8M => Some(Frequency::_16M),
            Frequency::_16M => Some(Frequency::_32M),
            Frequency::_32M => None,
        }
    }
}

/// Each frequency is handed to the driver as the value its name gives, and the frequencies
/// are 125 kHz and its doublings: the slowest is 125 000 Hz, each one is twice the one listed
/// before it, and the last is the fastest.
pub proof fn lemma_frequencies_named_and_doubling(f: Frequency)
    ensures
        f.hertz_spec() == f.number_in_name() * (if f.named_in_megahertz() {
            1_000_000int
        } else {
            1000int
        }),
        Frequency::_125k.hertz_spec() == 125_000,
        f.faster() matches Some(g) ==> g.hertz_spec() == 2 * f.hertz_spec(),
        f.faster() is None <==> f == Frequency::_32M,
        Frequency::_125k.hertz_spec() <= f.hertz_spec() <= Frequency::_32M.hertz_spec(),
{
}

/// SPI bus configuration.
#[derive(Debug, Copy, Clone, PartialEq, Eq, Structural)]
pub struct Config {
    /// The bus frequency.
    pub frequency: Frequency,
    /// The SPI mode.
    pub mode: Mode,
}

impl Default for Config {
    fn default() -> (r: Self)
        ensures
            r.frequency == Frequency::_1M,
            r.mode == Mode::Mode0,
    {
        Config { frequency: Frequency::_1M, mode: Mode::Mode0 }
    }
}

/// Returns the clock polarity and phase that the driver is configured with for a mode.
pub fn polarity_and_phase(mode: Mode) -> (r: (Polarity, Phase))
    ensures
        r == polarity_and_phase_spec(mode),
{
    match mode {
        Mode::Mode0 => (Polarity::IdleLow, Phase::CaptureOnFirstTransition),
        Mode::Mode1 => (Polarity::IdleLow, Phase::CaptureOnSecondTransition),
        Mode::Mode2 => (Polarity::IdleHigh, Phase::CaptureOnFirstTransition),
        Mode::Mode3 => (Polarity::IdleHigh, Phase::CaptureOnSecondTransition),
    }
}

/// Takes the SPI peripherals out of their slots among the optional peripherals and does
/// nothing with them, so that only the drivers of this module can use them. The slots must
/// still hold the peripherals; they are empty afterwards.
pub fn init<P0, P1>(spi0: &mut Option<P0>, spi1: &mut Option<P1>)
    requires
        old(spi0).is_some(),
        old(spi1).is_some(),
    ensures
        final(spi0).is_none(),
        final(spi1).is_none(),
{
    let _ = spi0.take().unwrap();
    let _ = spi1.take().unwrap();
}

} // verus!
