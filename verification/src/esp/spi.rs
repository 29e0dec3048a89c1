//! SPI settings of the ESP32 architecture.
use vstd::prelude::*;

use crate::spi::{BitOrder, Mode};
use crate::rate::{khz_in_hertz, mhz_in_hertz};

verus! {

/// SPI bus frequency.
#[derive(Debug, Copy, Clone, PartialEq, Eq, Structural)]
pub enum Frequency {
    /// 125 kHz.
    K125,
    /// 250 kHz.
    K250,
    /// 500 kHz.
    K500,
    /// 1 MHz.
    M1,
    /// 2 MHz.
    M2,
    /// 4 MHz.
    M4,
    /// 8 MHz.
    M8,
    /// 16 MHz.
    M16,
    /// 32 MHz.
    M32,
}

impl Frequency {
    /// The frequency in hertz.
    pub open spec fn hertz_spec(self) -> int {
        match self {
            Frequency::K125 => 125_000,
            Frequency::K250 => 250_000,
            Frequency::K500 => 500_000,
            Frequency::M1 => 1_000_000,
            Frequency::M2 => 2_000_000,
            Frequency::M4 => 4_000_000,
            Frequency::M8 => 8_000_000,
            Frequency::M16 => 16_000_000,
            Frequency::M32 => 32_000_000,
        }
    }

    /// Returns the frequency in hertz, as handed to the SPI driver.
    pub fn to_hertz(self) -> (r: u32)
        ensures
            r == self.hertz_spec(),
    {
        match self {
            Frequency::K125 => khz_in_hertz(125),
            Frequency::K250 => khz_in_hertz(250),
            Frequency::K500 => khz_in_hertz(500),
            Frequency::M1 => mhz_in_hertz(1),
            Frequency::M2 => mhz_in_hertz(2),
            Frequency::M4 => mhz_in_hertz(4),
            Frequency::M8 => mhz_in_hertz(8),
            Frequency::M16 => mhz_in_hertz(16),
            Frequency::M32 => mhz_in_hertz(32),
        }
    }
}

impl Frequency {
    /// The number in the frequency's name: 125 for 125 kHz, 16 for 16 MHz.
    pub open spec fn number_in_name(self) -> int {
        match self {
            Frequency::K125 => 125,
            Frequency::K250 => 250,
            Frequency::K500 => 500,
            Frequency::M1 => 1,
            Frequency::M2 => 2,
            Frequency::M4 => 4,
            Frequency::M8 => 8,
            Frequency::M16 => 16,
            Frequency::M32 => 32,
        }
    }

    /// Whether the frequency's name counts in megahertz rather than in kilohertz.
    pub open spec fn named_in_megahertz(self) -> bool {
        match self {
            Frequency::K125 => false,
            Frequency::K250 => false,
            Frequency::K500 => false,
            Frequency::M1 => true,
            Frequency::M2 => true,
            Frequency::M4 => true,
            Frequency::M8 => true,
            Frequency::M16 => true,
            Frequency::M32 => true,
        }
    }

    /// The next faster frequency, in the order the frequencies are listed.
    pub open spec fn faster(self) -> Option<Frequency> {
        match self {
            Frequency::K125 => Some(Frequency::K250),
            Frequency::K250 => Some(Frequency::K500),
            Frequency::K500 => Some(Frequency::M1),
            Frequency::M1 => Some(Frequency::M2),
            Frequency::M2 => Some(Frequency::M4),
            Frequency::M4 => Some(Frequency::M8),
            Frequency::M8 => Some(Frequency::M16),
            Frequency::M16 => Some(Frequency::M32),
            Frequency::M32 => None,
        }
    }
}

/// Each frequency is handed to the driver as the value its name gives, and the frequencies
/// are 125 kHz and its doublings: the slowest is 125 000 Hz, each one is twice the one listed
/// before it, and the last is the fastest.
pub proof fn lemma_frequencies_named_and_doubling(f: Frequency)
    ensures
        f.hertz_spec() == f.number_in_name() * (if f.named_in_megahertz() {
            1_000_000int
        } else {
            1000int
        }),
        Frequency::K125.hertz_spec() == 125_000,
        f.faster() matches Some(g) ==> g.hertz_spec() == 2 * f.hertz_spec(),
        f.faster() is None <==> f == Frequency::M32,
        Frequency::K125.hertz_spec() <= f.hertz_spec() <= Frequency::M32.hertz_spec(),
{
}

/// SPI bus configuration.
#[derive(Debug, Copy, Clone, PartialEq, Eq, Structural)]
pub struct Config {
    /// The bus frequency.
    pub frequency: Frequency,
    /// The SPI mode.
    pub mode: Mode,
    /// The bit order.
    pub bit_order: BitOrder,
}

impl Default for Config {
    fn default() -> (r: Self)
        ensures
            r.frequency == Frequency::M1,
            r.mode == Mode::Mode0,
            r.bit_order == BitOrder::MsbFirst,
    {
        Config { frequency: Frequency::M1, mode: Mode::Mode0, bit_order: BitOrder::default() }
    }
}

/// Takes the SPI peripheral out of its slot among the optional peripherals and does
/// nothing with it, so that only the drivers of this module can use it. The slot must still
/// hold the peripheral; it is empty afterwards.
pub fn init<P>(spi2: &mut Option<P>)
    requires
        old(spi2).is_some(),
    ensures
        final(spi2).is_none(),
{
    let _ = spi2.take().unwrap();
}

} // verus!
