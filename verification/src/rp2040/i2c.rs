//! I2C settings of the RP2040 architecture.
use vstd::prelude::*;

verus! {

/// I2C bus frequency.
#[derive(Debug, Copy, Clone, PartialEq, Eq, Structural)]
pub enum Frequency {
    /// 100 kHz.
    K100,
    /// 250 kHz.
    K250,
    /// 400 kHz.
    K400,
}

impl Frequency {
    /// The frequency in hertz.
    pub open spec fn hertz_spec(self) -> int {
        match self {
            Frequency::K100 => 100_000,
            Frequency::K250 => 250_000,
            Frequency::K400 => 400_000,
        }
    }

    /// Returns the frequency in hertz, the value handed to the I2C driver's configuration.
    pub fn to_hertz(self) -> (r: u32)
        ensures
            r == self.hertz_spec(),
    {
        match self {
            Frequency::K100 => 100_000,
            Frequency::K250 => 250_000,
            Frequency::K400 => 400_000,
        }
    }
}

impl Frequency {
    /// The number in the frequency's name: 125 for 125 kHz, 16 for 16 MHz.
    pub open spec fn number_in_name(self) -> int {
        match self {
            Frequency::K100 => 100,
            Frequency::K250 => 250,
            Frequency::K400 => 400,
        }
    }

    /// Whether the frequency's name counts in megahertz rather than in kilohertz.
    pub open spec fn named_in_megahertz(self) -> bool {
        match self {
            Frequency::K100 => false,
            Frequency::K250 => false,
            Frequency::K400 => false,
        }
    }

    /// The next faster frequency, in the order the frequencies are listed.
    pub open spec fn faster(self) -> Option<Frequency> {
        match self {
            Frequency::K100 => Some(Frequency::K250),
            Frequency::K250 => Some(Frequency::K400),
            Frequency::K400 => None,
        }
    }
}

/// Each frequency is handed to the driver as the value its name gives, and each frequency is
/// faster than the one listed before it.
pub proof fn lemma_frequencies_named_and_increasing(f: Frequency)
    ensures
        f.hertz_spec() == f.number_in_name() * (if f.named_in_megahertz() {
            1_000_000int
        } else {
            1000int
        }),
        f.faster() matches Some(g) ==> f.hertz_spec() < g.hertz_spec(),
{
}

/// I2C bus configuration.
#[derive(Debug, Copy, Clone, PartialEq, Eq, Structural)]
pub struct Config {
    /// The bus frequency.
    pub frequency: Frequency,
}

impl Default for Config {
    fn default() -> (r: Self)
        ensures
            r.frequency == Frequency::K100,
    {
        Config { frequency: Frequency::K100 }
    }
}

/// Takes the I2C peripherals out of their slots among the optional peripherals and does
/// nothing with them, so that only the drivers of this module can use them. The slots must
/// still hold the peripherals; they are empty afterwards.
pub fn init<P0, P1>(i2c0: &mut Option<P0>, i2c1: &mut Option<P1>)
    requires
        old(i2c0).is_some(),
        old(i2c1).is_some(),
    ensures
        final(i2c0).is_none(),
        final(i2c1).is_none(),
{
    let _ = i2c0.take().unwrap();
    let _ = i2c1.take().unwrap();
}

} // verus!
