//! I2C error mapping of the nRF architecture.
use vstd::prelude::*;

use crate::i2c::{Error, NoAcknowledgeSource};

verus! {

/// I2C bus frequency of the nRF I2C (TWIM) driver.
#[derive(Debug, Copy, Clone, PartialEq, Eq, Structural)]
pub enum Frequency {
    /// 100 kbps.
    K100,
    /// 250 kbps.
    K250,
    /// 400 kbps.
    K400,
}

/// I2C bus configuration.
#[derive(Debug, Copy, Clone, PartialEq, Eq, Structural)]
pub struct Config {
    /// The bus frequency.
    pub frequency: Frequency,
    /// Whether the internal pull-up of the SDA line is enabled.
    pub sda_pullup: bool,
    /// Whether the internal pull-up of the SCL line is enabled.
    pub scl_pullup: bool,
    /// Whether the SDA line uses the high drive.
    pub sda_high_drive: bool,
    /// Whether the SCL line uses the high drive.
    pub scl_high_drive: bool,
}

impl Default for Config {
    fn default() -> (r: Self)
        ensures
            r.frequency == Frequency::K100,
            !r.sda_pullup,
            !r.scl_pullup,
            !r.sda_high_drive,
            !r.scl_high_drive,
    {
        Config {
            frequency: Frequency::K100,
            sda_pullup: false,
            scl_pullup: false,
            sda_high_drive: false,
            scl_high_drive: false,
        }
    }
}

/// The errors reported by the nRF I2C (TWIM) driver.
#[allow(non_camel_case_types)]
#[derive(Debug, Copy, Clone, PartialEq, Eq, Structural)]
pub enum DriverError {
    /// The transmit buffer is too long.
    TxBufferTooLong,
    /// The receive buffer is too long.
    RxBufferTooLong,
    /// Data transmit failed.
    Transmit,
    /// Data reception failed.
    Receive,
    /// The buffer is not in data RAM.
    BufferNotInRAM,
    /// The address was not acknowledged.
    AddressNack,
    /// The data was not acknowledged.
    DataNack,
    /// Overrun.
    Overrun,
    /// Timeout.
    Timeout,
    /// Any error the driver may add in later versions.
    Unlisted,
}

/// The bus error that a driver error stands for.
pub open spec fn error_for(err: DriverError) -> Error {
    match err {
        DriverError::AddressNack => Error::NoAcknowledge(NoAcknowledgeSource::Address),
        DriverError::DataNack => Error::NoAcknowledge(NoAcknowledgeSource::Data),
        DriverError::Overrun => Error::Overrun,
        DriverError::Timeout => Error::Timeout,
        _ => Error::Other,
    }
}

/// Converts a driver error into a bus error.
pub fn from_error(err: DriverError) -> (r: Error)
    ensures
        r == error_for(err),
{
    match err {
        DriverError::TxBufferTooLong => Error::Other,
        DriverError::RxBufferTooLong => Error::Other,
        DriverError::Transmit => Error::Other,
        DriverError::Receive => Error::Other,
        DriverError::BufferNotInRAM => Error::Other,
        DriverError::AddressNack => Error::NoAcknowledge(NoAcknowledgeSource::Address),
        DriverError::DataNack => Error::NoAcknowledge(NoAcknowledgeSource::Data),
        DriverError::Overrun => Error::Overrun,
        DriverError::Timeout => Error::Timeout,
        DriverError::Unlisted => Error::Other,
    }
}

/// Takes the I2C (shared two-wire/SPI) peripherals out of their slots among the optional
/// peripherals and does nothing with them, so that only the drivers of this module can use
/// them. The slots must still hold the peripherals; they are empty afterwards.
pub fn init<P0, P1>(twispi0: &mut Option<P0>, twispi1: &mut Option<P1>)
    requires
        old(twispi0).is_some(),
        old(twispi1).is_some(),
    ensures
        final(twispi0).is_none(),
        final(twispi1).is_none(),
{
    let _ = twispi0.take().unwrap();
    let _ = twispi1.take().unwrap();
}

/// A driver error is reported as what the driver saw: a missing acknowledgement of the address
/// exactly for an address NACK, of the data exactly for a data NACK, a timeout exactly for the
/// driver's timeout, and an overrun exactly for the driver's overrun; none is reported as a
/// protocol error or an arbitration loss.
pub proof fn lemma_errors_reported_as_seen(err: DriverError)
    ensures
        error_for(err) == Error::NoAcknowledge(NoAcknowledgeSource::Address) <==> err
            == DriverError::AddressNack,
        error_for(err) == Error::NoAcknowledge(NoAcknowledgeSource::Data) <==> err
            == DriverError::DataNack,
        error_for(err) is NoAcknowledge <==> (err == DriverError::AddressNack || err
            == DriverError::DataNack),
        error_for(err) == Error::Timeout <==> err == DriverError::Timeout,
        error_for(err) == Error::Overrun <==> err == DriverError::Overrun,
        error_for(err) != Error::Bus,
        error_for(err) != Error::ArbitrationLoss,
{
}

} // verus!
