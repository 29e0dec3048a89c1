//! I2C settings and error mapping of the ESP32 architecture.
use vstd::prelude::*;

use crate::i2c::{Error, NoAcknowledgeSource};
use crate::rate::{khz_in_hertz, mhz_in_hertz};

verus! {

/// I2C bus frequency.
#[derive(Debug, Copy, Clone, PartialEq, Eq, Structural)]
pub enum Frequency {
    /// 100 kHz.
    K100,
    /// 250 kHz.
    K250,
    /// 400 kHz.
    K400,
    /// 1 MHz.
    M1,
}

impl Frequency {
    /// The frequency in hertz.
    pub open spec fn hertz_spec(self) -> int {
        match self {
            Frequency::K100 => 100_000,
            Frequency::K250 => 250_000,
            Frequency::K400 => 400_000,
            Frequency::M1 => 1_000_000,
        }
    }

    /// Returns the frequency in hertz, as handed to the I2C driver.
    pub fn to_hertz(self) -> (r: u32)
        ensures
            r == self.hertz_spec(),
    {
        match self {
            Frequency::K100 => khz_in_hertz(100),
            Frequency::K250 => khz_in_hertz(250),
            Frequency::K400 => khz_in_hertz(400),
            Frequency::M1 => mhz_in_hertz(1),
        }
    }
}

impl Frequency {
    /// The number in the frequency's name: 125 for 125 kHz, 16 for 16 MHz.
    pub open spec fn number_in_name(self) -> int {
        match self {
            Frequency::K100 => 100,
            Frequency::K250 => 250,
            Frequency::K400 => 400,
            Frequency::M1 => 1,
        }
    }

    /// Whether the frequency's name counts in megahertz rather than in kilohertz.
    pub open spec fn named_in_megahertz(self) -> bool {
        match self {
            Frequency::K100 => false,
            Frequency::K250 => false,
            Frequency::K400 => false,
            Frequency::M1 => true,
        }
    }

    /// The next faster frequency, in the order the frequencies are listed.
    pub open spec fn faster(self) -> Option<Frequency> {
        match self {
            Frequency::K100 => Some(Frequency::K250),
            Frequency::K250 => Some(Frequency::K400),
            Frequency::K400 => Some(Frequency::M1),
            Frequency::M1 => None,
        }
    }
}

/// Each frequency is handed to the driver as the value its name gives, and each frequency is
/// faster than the one listed before it.
pub proof fn lemma_frequencies_named_and_increasing(f: Frequency)
    ensures
        f.hertz_spec() == f.number_in_name() * (if f.named_in_megahertz() {
            1_000_000int
        } else {
            1000int
        }),
        f.faster() matches Some(g) ==> f.hertz_spec() < g.hertz_spec(),
{
}

/// I2C bus configuration.
#[derive(Debug, Copy, Clone, PartialEq, Eq, Structural)]
pub struct Config {
    /// The bus frequency.
    pub frequency: Frequency,
}

impl Default for Config {
    fn default() -> (r: Self)
        ensures
            r.frequency == Frequency::K100,
    {
        Config { frequency: Frequency::K100 }
    }
}

/// The errors reported by the ESP32 I2C driver.
#[derive(Debug, Copy, Clone, PartialEq, Eq, Structural)]
pub enum DriverError {
    /// The transmission exceeded the FIFO size.
    ExceedingFifo,
    /// The acknowledgement check failed.
    AckCheckFailed,
    /// A timeout occurred.
    TimeOut,
    /// The arbitration for the bus was lost.
    ArbitrationLost,
    /// The execution was incomplete.
    ExecIncomplete,
    /// Too many commands were issued.
    CommandNrExceeded,
}

/// The bus error that a driver error stands for.
pub open spec fn error_for(err: DriverError) -> Error {
    match err {
        DriverError::ExceedingFifo => Error::Overrun,
        DriverError::AckCheckFailed => Error::NoAcknowledge(NoAcknowledgeSource::Unknown),
        DriverError::TimeOut => Error::Timeout,
        DriverError::ArbitrationLost => Error::ArbitrationLoss,
        DriverError::ExecIncomplete => Error::Other,
        DriverError::CommandNrExceeded => Error::Other,
    }
}

/// Converts a driver error into a bus error.
pub fn from_error(err: DriverError) -> (r: Error)
    ensures
        r == error_for(err),
{
    match err {
        DriverError::ExceedingFifo => Error::Overrun,
        DriverError::AckCheckFailed => Error::NoAcknowledge(NoAcknowledgeSource::Unknown),
        DriverError::TimeOut => Error::Timeout,
        DriverError::ArbitrationLost => Error::ArbitrationLoss,
        DriverError::ExecIncomplete => Error::Other,
        DriverError::CommandNrExceeded => Error::Other,
    }
}

/// Takes the I2C peripheral out of its slot among the optional peripherals and does
/// nothing with it, so that only the drivers of this module can use it. The slot must still
/// hold the peripheral; it is empty afterwards.
pub fn init<P>(i2c0: &mut Option<P>)
    requires
        old(i2c0).is_some(),
    ensures
        final(i2c0).is_none(),
{
    let _ = i2c0.take().unwrap();
}

/// A driver error is reported as what the driver saw: a missing acknowledgement exactly for a
/// failed acknowledgement check (from an unknown step, as the driver does not say which), a
/// timeout exactly for the driver's timeout, an arbitration loss exactly for a lost
/// arbitration, and an overrun exactly for an exceeded FIFO; none is reported as a protocol
/// error.
pub proof fn lemma_errors_reported_as_seen(err: DriverError)
    ensures
        error_for(err) is NoAcknowledge <==> err == DriverError::AckCheckFailed,
        error_for(err) is NoAcknowledge ==> error_for(err) == Error::NoAcknowledge(
            NoAcknowledgeSource::Unknown,
        ),
        error_for(err) == Error::Timeout <==> err == DriverError::TimeOut,
        error_for(err) == Error::ArbitrationLoss <==> err == DriverError::ArbitrationLost,
        error_for(err) == Error::Overrun <==> err == DriverError::ExceedingFifo,
        error_for(err) != Error::Bus,
{
}

} // verus!
