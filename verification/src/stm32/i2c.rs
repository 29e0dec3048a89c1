//! I2C settings and error mapping of the STM32 architecture.
use vstd::prelude::*;

use crate::i2c::{Error, NoAcknowledgeSource};

verus! {

/// I2C bus frequency; the hardware also supports intermediate frequencies.
#[allow(non_camel_case_types)]
#[derive(Debug, Copy, Clone, PartialEq, Eq, Structural)]
pub enum Frequency {
    /// Standard mode.
    _100k,
    /// 250 kHz.
    _250k,
    /// Fast mode.
    _400k,
}

impl Frequency {
    /// The frequency in hertz.
    pub open spec fn hertz_spec(self) -> int {
        match self {
            Frequency::_100k => 100_000,
            Frequency::_250k => 250_000,
            Frequency::_400k => 400_000,
        }
    }

    /// Returns the frequency in hertz.
    pub fn to_hertz(self) -> (r: u32)
        ensures
            r == self.hertz_spec(),
    {
        match self {
            Frequency::_100k => 100_000,
            Frequency::_250k => 250_000,
            Frequency::_400k => 400_000,
        }
    }
}

impl Frequency {
    /// The number in the frequency's name: 125 for 125 kHz, 16 for 16 MHz.
    pub open spec fn number_in_name(self) -> int {
        match self {
            Frequency::_100k => 100,
            Frequency::_250k => 250,
            Frequency::_400k => 400,
        }
    }

    /// Whether the frequency's name counts in megahertz rather than in kilohertz.
    pub open spec fn named_in_megahertz(self) -> bool {
        match self {
            Frequency::_100k => false,
            Frequency::_250k => false,
            Frequency::_400k => false,
        }
    }

    /// The next faster frequency, in the order the frequencies are listed.
    pub open spec fn faster(self) -> Option<Frequency> {
        match self {
            Frequency::_100k => Some(Frequency::_250k),
            Frequency::_250k => Some(Frequency::_400k),
            Frequency::_400k => None,
        }
    }
}

/// Each frequency is handed to the driver as the value its name gives, and each frequency is
/// faster than the one listed before it.
pub proof fn lemma_frequencies_named_and_increasing(f: Frequency)
    ensures
        f.hertz_spec() == f.number_in_name() * (if f.named_in_megahertz() {
            1_000_000int
        } else {
            1000int
        }),
        f.faster() matches Some(g) ==> f.hertz_spec() < g.hertz_spec(),
{
}

/// I2C bus configuration.
#[derive(Debug, Copy, Clone, PartialEq, Eq, Structural)]
pub struct Config {
    /// The bus frequency.
    pub frequency: Frequency,
    /// Whether the internal pull-up of the SDA line is enabled.
    pub sda_pullup: bool,
    /// Whether the internal pull-up of the SCL line is enabled.
    pub scl_pullup: bool,
}

impl Default for Config {
    fn default() -> (r: Self)
        ensures
            r.frequency == Frequency::_100k,
            !r.sda_pullup,
            !r.scl_pullup,
    {
        Config { frequency: Frequency::_100k, sda_pullup: false, scl_pullup: false }
    }
}

/// The errors reported by the STM32 I2C driver.
#[derive(Debug, Copy, Clone, PartialEq, Eq, Structural)]
pub enum DriverError {
    /// Bus error.
    Bus,
    /// Arbitration lost.
    Arbitration,
    /// No acknowledgement.
    Nack,
    /// Timeout.
    Timeout,
    /// CRC error.
    Crc,
    /// Overrun.
    Overrun,
    /// Zero-length transfers are not allowed.
    ZeroLengthTransfer,
}

/// The bus error that a driver error stands for.
pub open spec fn error_for(err: DriverError) -> Error {
    match err {
        DriverError::Bus => Error::Bus,
        DriverError::Arbitration => Error::ArbitrationLoss,
        DriverError::Nack => Error::NoAcknowledge(NoAcknowledgeSource::Unknown),
        DriverError::Timeout => Error::Timeout,
        DriverError::Crc => Error::Other,
        DriverError::Overrun => Error::Overrun,
        DriverError::ZeroLengthTransfer => Error::Other,
    }
}

/// Converts a driver error into a bus error.
pub fn from_error(err: DriverError) -> (r: Error)
    ensures
        r == error_for(err),
{
    match err {
        DriverError::Bus => Error::Bus,
        DriverError::Arbitration => Error::ArbitrationLoss,
        DriverError::Nack => Error::NoAcknowledge(NoAcknowledgeSource::Unknown),
        DriverError::Timeout => Error::Timeout,
        DriverError::Crc => Error::Other,
        DriverError::Overrun => Error::Overrun,
        DriverError::ZeroLengthTransfer => Error::Other,
    }
}

/// A driver error is reported as what the driver saw: a protocol error exactly for a bus
/// error, an arbitration loss exactly for a lost arbitration, a missing acknowledgement exactly
/// for a NACK (from an unknown step, as the driver does not say which), a timeout exactly for
/// the driver's timeout, and an overrun exactly for the driver's overrun.
pub proof fn lemma_errors_reported_as_seen(err: DriverError)
    ensures
        error_for(err) == Error::Bus <==> err == DriverError::Bus,
        error_for(err) == Error::ArbitrationLoss <==> err == DriverError::Arbitration,
        error_for(err) is NoAcknowledge <==> err == DriverError::Nack,
        error_for(err) is NoAcknowledge ==> error_for(err) == Error::NoAcknowledge(
            NoAcknowledgeSource::Unknown,
        ),
        error_for(err) == Error::Timeout <==> err == DriverError::Timeout,
        error_for(err) == Error::Overrun <==> err == DriverError::Overrun,
{
}

} // verus!
