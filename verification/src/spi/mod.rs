//! Types shared by the SPI drivers of every architecture.
pub mod main;

use vstd::prelude::*;

use crate::rp2040::spi::Frequency as ArchFrequency;

verus! {

/// SPI mode.
///
/// - CPOL: clock polarity.
/// - CPHA: clock phase.
#[derive(Debug, Copy, Clone, PartialEq, Eq, Structural)]
pub enum Mode {
    /// CPOL = 0, CPHA = 0.
    Mode0,
    /// CPOL = 0, CPHA = 1.
    Mode1,
    /// CPOL = 1, CPHA = 0.
    Mode2,
    /// CPOL = 1, CPHA = 1.
    Mode3,
}

impl Mode {
    /// The mode number (0 to 3), as used in the usual SPI mode table.
    pub open spec fn number(self) -> int {
        match self {
            Mode::Mode0 => 0,
            Mode::Mode1 => 1,
            Mode::Mode2 => 2,
            Mode::Mode3 => 3,
        }
    }

    /// Clock polarity of the mode: the high bit of the mode number.
    pub open spec fn cpol(self) -> bool {
        self.number() / 2 == 1
    }

    /// Clock phase of the mode: the low bit of the mode number.
    pub open spec fn cpha(self) -> bool {
        self.number() % 2 == 1
    }
}

/// Clock polarity: the level of the clock line when idle.
#[derive(Debug, Copy, Clone, PartialEq, Eq, Structural)]
pub enum Polarity {
    /// Clock low when idle (CPOL = 0).
    IdleLow,
    /// Clock high when idle (CPOL = 1).
    IdleHigh,
}

/// Clock phase: the clock transition on which data is captured.
#[derive(Debug, Copy, Clone, PartialEq, Eq, Structural)]
pub enum Phase {
    /// Data captured on the first transition (CPHA = 0).
    CaptureOnFirstTransition,
    /// Data captured on the second transition (CPHA = 1).
    CaptureOnSecondTransition,
}

/// The clock polarity and phase of a mode, from its CPOL and CPHA bits.
pub open spec fn polarity_and_phase_spec(mode: Mode) -> (Polarity, Phase) {
    (
        if mode.cpol() { Polarity::IdleHigh } else { Polarity::IdleLow },
        if mode.cpha() {
            Phase::CaptureOnSecondTransition
        } else {
            Phase::CaptureOnFirstTransition
        },
    )
}

/// Order in which bits are transmitted.
#[derive(Debug, Copy, Clone, PartialEq, Eq, Structural)]
pub enum BitOrder {
    /// Most significant bit first.
    MsbFirst,
    /// Least significant bit first.
    LsbFirst,
}

impl Default for BitOrder {
    fn default() -> (r: Self)
        ensures
            r == BitOrder::MsbFirst,
    {
        BitOrder::MsbFirst
    }
}

/// A frequency expressed in kilohertz or in megahertz.
#[allow(non_camel_case_types)]
#[derive(Debug, Copy, Clone)]
pub enum Kilohertz {
    /// Kilohertz.
    kHz(u32),
    /// Megahertz.
    MHz(u32),
}

impl Kilohertz {
    /// The frequency in kilohertz, as a mathematical integer.
    pub open spec fn khz_value(self) -> int {
        match self {
            Kilohertz::kHz(k) => k as int,
            Kilohertz::MHz(m) => m * 1000,
        }
    }

    /// Returns the frequency in kilohertz.
    ///
    /// A frequency in megahertz whose value in kilohertz does not fit in a `u32` overflows,
    /// hence the precondition.
    #[allow(non_snake_case)]
    pub fn to_kHz(self) -> (r: u32)
        requires
            self.khz_value() <= u32::MAX,
        ensures
            r == self.khz_value(),
    {
        match self {
            Kilohertz::kHz(k) => k,
            Kilohertz::MHz(m) => m * 1000,
        }
    }

    /// The frequency in kilohertz, computed in a width that cannot overflow.
    fn khz_wide(self) -> (r: u64)
        ensures
            r == self.khz_value(),
    {
        match self {
            Kilohertz::kHz(k) => k as u64,
            Kilohertz::MHz(m) => m as u64 * 1000,
        }
    }
}

/// Two frequencies are equal when they denote the same number of kilohertz, whichever unit
/// they are written in.
impl PartialEq for Kilohertz {
    fn eq(&self, other: &Self) -> (r: bool) {
        self.khz_wide() == other.khz_wide()
    }
}

impl vstd::std_specs::cmp::PartialEqSpecImpl for Kilohertz {
    open spec fn obeys_eq_spec() -> bool {
        true
    }

    open spec fn eq_spec(&self, other: &Kilohertz) -> bool {
        self.khz_value() == other.khz_value()
    }
}

impl Eq for Kilohertz {}

/// SPI bus frequency: one of the common frequencies, or a frequency specific to the
/// architecture (here the RP2040 one, whose frequencies include all common ones).
#[allow(non_camel_case_types)]
#[derive(Debug, Copy, Clone, PartialEq, Eq, Structural)]
pub enum Frequency {
    /// A frequency specific to the architecture.
    Arch(ArchFrequency),
    /// 125 kHz.
    _125k,
    /// 250 kHz.
    _250k,
    /// 500 kHz.
    _500k,
    /// 1 MHz.
    _1M,
    /// 2 MHz.
    _2M,
    /// 4 MHz.
    _4M,
    /// 8 MHz.
    _8M,
}

/// The architecture's frequency for a frequency.
pub open spec fn arch_frequency(freq: Frequency) -> ArchFrequency {
    match freq {
        Frequency::Arch(f) => f,
        Frequency::_125k => ArchFrequency::_125k,
        Frequency::_250k => ArchFrequency::_250k,
        Frequency::_500k => ArchFrequency::_500k,
        Frequency::_1M => ArchFrequency::_1M,
        Frequency::_2M => ArchFrequency::_2M,
        Frequency::_4M => ArchFrequency::_4M,
        Frequency::_8M => ArchFrequency::_8M,
    }
}

/// The frequency, in hertz, that a frequency names.
pub open spec fn nominal_hertz(freq: Frequency) -> int {
    match freq {
        Frequency::Arch(f) => f.hertz_spec(),
        Frequency::_125k => 125_000,
        Frequency::_250k => 250_000,
        Frequency::_500k => 500_000,
        Frequency::_1M => 1_000_000,
        Frequency::_2M => 2_000_000,
        Frequency::_4M => 4_000_000,
        Frequency::_8M => 8_000_000,
    }
}

/// Converting a frequency into the architecture's frequency keeps its value: the driver is
/// handed, in hertz, the frequency that was named.
pub proof fn lemma_conversion_keeps_hertz(freq: Frequency)
    ensures
        arch_frequency(freq).hertz_spec() == nominal_hertz(freq),
{
}

impl From<Frequency> for ArchFrequency {
    fn from(freq: Frequency) -> (r: Self) {
        match freq {
            Frequency::Arch(f) => f,
            Frequency::_125k => ArchFrequency::_125k,
            Frequency::_250k => ArchFrequency::_250k,
            Frequency::_500k => ArchFrequency::_500k,
            Frequency::_1M => ArchFrequency::_1M,
            Frequency::_2M => ArchFrequency::_2M,
            Frequency::_4M => ArchFrequency::_4M,
            Frequency::_8M => ArchFrequency::_8M,
        }
    }
}

impl vstd::std_specs::convert::FromSpecImpl<Frequency> for ArchFrequency {
    open spec fn obeys_from_spec() -> bool {
        true
    }

    open spec fn from_spec(freq: Frequency) -> ArchFrequency {
        arch_frequency(freq)
    }
}

} // verus!
