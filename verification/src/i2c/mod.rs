//! I2C bus support: the architecture-independent error type.
pub mod controller;

use vstd::prelude::*;

use crate::stm32::i2c::Frequency as ArchFrequency;

verus! {

/// Timeout of I2C operations, in milliseconds. Architectures are allowed to time out earlier.
pub const I2C_TIMEOUT_MS: u64 = 100;

/// An I2C error.
#[derive(Debug, Copy, Clone, PartialEq, Eq, Structural)]
pub enum Error {
    /// A protocol error occurred (e.g., the transaction was terminated earlier than expected).
    Bus,
    /// Bus arbitration was lost (e.g., because there are multiple controllers on the bus).
    ArbitrationLoss,
    /// No acknowledgement was received when expected.
    NoAcknowledge(NoAcknowledgeSource),
    /// Overrun of the receive buffer.
    Overrun,
    /// Timeout when attempting to use the bus; most likely the target device is not connected.
    Timeout,
    /// An other error occurred.
    Other,
}

/// Indicates what protocol step was not acknowledged by the target device.
#[derive(Debug, Copy, Clone, PartialEq, Eq, Structural)]
pub enum NoAcknowledgeSource {
    /// The device did not acknowledge its address.
    Address,
    /// The device did not acknowledge the data.
    Data,
    /// The device did not acknowledge either its address or its data.
    Unknown,
}

/// The generic kind of an I2C error, with the variants of the embedded HAL's error kinds.
#[derive(Debug, Copy, Clone, PartialEq, Eq, Structural)]
pub enum ErrorKind {
    /// Bus error.
    Bus,
    /// Arbitration loss.
    ArbitrationLoss,
    /// No acknowledgement.
    NoAcknowledge(NoAcknowledgeSource),
    /// Receive buffer overrun.
    Overrun,
    /// Any other error.
    Other,
}

impl Error {
    /// The generic kind of the error.
    pub open spec fn kind_spec(self) -> ErrorKind {
        match self {
            Error::Bus => ErrorKind::Bus,
            Error::ArbitrationLoss => ErrorKind::ArbitrationLoss,
            Error::NoAcknowledge(source) => ErrorKind::NoAcknowledge(source),
            Error::Overrun => ErrorKind::Overrun,
            Error::Timeout => ErrorKind::Other,
            Error::Other => ErrorKind::Other,
        }
    }

    /// Returns the generic kind of the error: each error maps to the kind of the same name,
    /// and a timeout maps to [`ErrorKind::Other`].
    pub fn kind(&self) -> (r: ErrorKind)
        ensures
            r == self.kind_spec(),
    {
        match self {
            Error::Bus => ErrorKind::Bus,
            Error::ArbitrationLoss => ErrorKind::ArbitrationLoss,
            Error::NoAcknowledge(source) => ErrorKind::NoAcknowledge(*source),
            Error::Overrun => ErrorKind::Overrun,
            Error::Timeout => ErrorKind::Other,
            Error::Other => ErrorKind::Other,
        }
    }
}

/// I2C bus frequency: one of the standard frequencies, or a frequency specific to the
/// architecture (here the STM32 one, whose frequencies include both standard ones).
#[allow(non_camel_case_types)]
#[derive(Debug, Copy, Clone, PartialEq, Eq, Structural)]
pub enum Frequency {
    /// A frequency specific to the architecture.
    Arch(ArchFrequency),
    /// Standard mode: 100 kHz.
    _100k,
    /// Fast mode: 400 kHz.
    _400k,
}

/// The architecture's frequency for a frequency.
pub open spec fn arch_frequency(freq: Frequency) -> ArchFrequency {
    match freq {
        Frequency::Arch(f) => f,
        Frequency::_100k => ArchFrequency::_100k,
        Frequency::_400k => ArchFrequency::_400k,
    }
}

/// The frequency, in hertz, that a frequency names.
pub open spec fn nominal_hertz(freq: Frequency) -> int {
    match freq {
        Frequency::Arch(f) => f.hertz_spec(),
        Frequency::_100k => 100_000,
        Frequency::_400k => 400_000,
    }
}

/// Converting a frequency into the architecture's frequency keeps its value: the driver is
/// handed, in hertz, the frequency that was named (100 kHz for standard mode, 400 kHz for fast
/// mode, and an architecture's own frequency unchanged).
pub proof fn lemma_conversion_keeps_hertz(freq: Frequency)
    ensures
        arch_frequency(freq).hertz_spec() == nominal_hertz(freq),
        freq matches Frequency::Arch(g) ==> arch_frequency(freq) == g,
{
}

impl From<Frequency> for ArchFrequency {
    fn from(freq: Frequency) -> (r: Self) {
        match freq {
            Frequency::Arch(f) => f,
            Frequency::_100k => ArchFrequency::_100k,
            Frequency::_400k => ArchFrequency::_400k,
        }
    }
}

impl vstd::std_specs::convert::FromSpecImpl<Frequency> for ArchFrequency {
    open spec fn obeys_from_spec() -> bool {
        true
    }

    open spec fn from_spec(freq: Frequency) -> ArchFrequency {
        arch_frequency(freq)
    }
}

/// The outcome of a bus operation raced against the I2C timeout: the operation's own outcome
/// when it finished first (`Some`), and a missing acknowledgement from an unknown step when the
/// timeout expired first (`None`), as the device most likely did not answer.
pub fn timeout_outcome(finished: Option<Result<(), Error>>) -> (r: Result<(), Error>)
    ensures
        finished is Some ==> r == finished->0,
        finished is None ==> r == Err::<(), Error>(Error::NoAcknowledge(NoAcknowledgeSource::Unknown)),
{
    match finished {
        Some(outcome) => outcome,
        None => Err(Error::NoAcknowledge(NoAcknowledgeSource::Unknown)),
    }
}

} // verus!
