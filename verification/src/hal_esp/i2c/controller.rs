//! I2C controller settings of the ESP32-C6.
use vstd::prelude::*;

use crate::i2c::{Error, NoAcknowledgeSource};
use crate::rate::khz_in_hertz;

verus! {

/// I2C bus frequency.
#[derive(Debug, Copy, Clone, PartialEq, Eq, Structural)]
pub enum Frequency {
    /// Standard mode.
    _100k,
    /// Fast mode.
    _400k,
}

impl Frequency {
    /// The frequency in kilohertz.
    pub open spec fn khz_spec(self) -> int {
        match self {
            Frequency::_100k => 100,
            Frequency::_400k => 400,
        }
    }

    /// The next higher frequency, if any.
    pub open spec fn next_spec(self) -> Option<Frequency> {
        match self {
            Frequency::_100k => Some(Frequency::_400k),
            Frequency::_400k => None,
        }
    }

    /// The next lower frequency, if any.
    pub open spec fn prev_spec(self) -> Option<Frequency> {
        match self {
            Frequency::_100k => None,
            Frequency::_400k => Some(Frequency::_100k),
        }
    }

    /// The lowest frequency.
    pub fn first() -> (r: Self)
        ensures
            r == Frequency::_100k,
    {
        Frequency::_100k
    }

    /// The highest frequency.
    pub fn last() -> (r: Self)
        ensures
            r == Frequency::_400k,
    {
        Frequency::_400k
    }

    /// The next higher frequency, if any.
    pub fn next(self) -> (r: Option<Self>)
        ensures
            r == self.next_spec(),
    {
        match self {
            Frequency::_100k => Some(Frequency::_400k),
            Frequency::_400k => None,
        }
    }

    /// The next lower frequency, if any.
    pub fn prev(self) -> (r: Option<Self>)
        ensures
            r == self.prev_spec(),
    {
        match self {
            Frequency::_100k => None,
            Frequency::_400k => Some(Frequency::_100k),
        }
    }

    /// The frequency in kilohertz.
    pub fn khz(self) -> (r: u32)
        ensures
            r == self.khz_spec(),
    {
        match self {
            Frequency::_100k => 100,
            Frequency::_400k => 400,
        }
    }

    /// Returns the frequency in hertz, as handed to the I2C driver.
    pub fn to_hertz(self) -> (r: u32)
        ensures
            r == self.khz_spec() * 1000,
    {
        match self {
            Frequency::_100k => khz_in_hertz(100),
            Frequency::_400k => khz_in_hertz(400),
        }
    }
}

/// Stepping through the frequencies: `next` goes strictly up and `prev` undoes it, `first` is
/// the lowest frequency and has no predecessor, `last` is the highest and has no successor.
pub proof fn lemma_frequency_order(f: Frequency)
    ensures
        f.next_spec() is Some ==> f.next_spec().unwrap().khz_spec() > f.khz_spec()
            && f.next_spec().unwrap().prev_spec() == Some(f),
        f.prev_spec() is Some ==> f.prev_spec().unwrap().khz_spec() < f.khz_spec()
            && f.prev_spec().unwrap().next_spec() == Some(f),
        Frequency::_100k.khz_spec() <= f.khz_spec() <= Frequency::_400k.khz_spec(),
        Frequency::_100k.prev_spec() is None,
        Frequency::_400k.next_spec() is None,
{
}

/// I2C bus configuration.
#[derive(Debug, Copy, Clone, PartialEq, Eq, Structural)]
pub struct Config {
    /// The bus frequency.
    pub frequency: Frequency,
}

impl Default for Config {
    fn default() -> (r: Self)
        ensures
            r.frequency == Frequency::_100k,
    {
        Config { frequency: Frequency::_100k }
    }
}

/// The errors reported by the ESP32 I2C driver.
#[derive(Debug, Copy, Clone, PartialEq, Eq, Structural)]
pub enum DriverError {
    /// The transmission exceeded the FIFO size.
    ExceedingFifo,
    /// The acknowledgement check failed.
    AckCheckFailed,
    /// A timeout occurred.
    TimeOut,
    /// The arbitration for the bus was lost.
    ArbitrationLost,
    /// The execution was incomplete.
    ExecIncomplete,
    /// Too many commands were issued.
    CommandNrExceeded,
    /// A zero-length read or write was requested.
    InvalidZeroLength,
}

/// The bus error that a driver error stands for.
pub open spec fn error_for(err: DriverError) -> Error {
    match err {
        DriverError::ExceedingFifo => Error::Overrun,
        DriverError::AckCheckFailed => Error::NoAcknowledge(NoAcknowledgeSource::Unknown),
        DriverError::TimeOut => Error::Timeout,
        DriverError::ArbitrationLost => Error::ArbitrationLoss,
        DriverError::ExecIncomplete => Error::Other,
        DriverError::CommandNrExceeded => Error::Other,
        DriverError::InvalidZeroLength => Error::Other,
    }
}

/// Converts a driver error into a bus error.
pub fn from_error(err: DriverError) -> (r: Error)
    ensures
        r == error_for(err),
{
    match err {
        DriverError::ExceedingFifo => Error::Overrun,
        DriverError::AckCheckFailed => Error::NoAcknowledge(NoAcknowledgeSource::Unknown),
        DriverError::TimeOut => Error::Timeout,
        DriverError::ArbitrationLost => Error::ArbitrationLoss,
        DriverError::ExecIncomplete => Error::Other,
        DriverError::CommandNrExceeded => Error::Other,
        DriverError::InvalidZeroLength => Error::Other,
    }
}

/// A driver error is reported as what the driver saw: a missing acknowledgement exactly for a
/// failed acknowledgement check (from an unknown step, as the driver does not say which), a
/// timeout exactly for the driver's timeout, an arbitration loss exactly for a lost
/// arbitration, and an overrun exactly for an exceeded FIFO; none is reported as a protocol
/// error.
pub proof fn lemma_errors_reported_as_seen(err: DriverError)
    ensures
        error_for(err) is NoAcknowledge <==> err == DriverError::AckCheckFailed,
        error_for(err) is NoAcknowledge ==> error_for(err) == Error::NoAcknowledge(
            NoAcknowledgeSource::Unknown,
        ),
        error_for(err) == Error::Timeout <==> err == DriverError::TimeOut,
        error_for(err) == Error::ArbitrationLoss <==> err == DriverError::ArbitrationLost,
        error_for(err) == Error::Overrun <==> err == DriverError::ExceedingFifo,
        error_for(err) != Error::Bus,
{
}

} // verus!
