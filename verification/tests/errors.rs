use riot_rs_embassy::application::{take_peripheral, ApplicationError, DefinePeripheralsError};
use riot_rs_embassy::esp::i2c::{from_error as esp_from_error, DriverError as EspError};
use riot_rs_embassy::hal_esp::i2c::controller::{from_error as c6_from_error, DriverError as C6Error};
use riot_rs_embassy::i2c::{timeout_outcome, Error, ErrorKind, NoAcknowledgeSource};
use riot_rs_embassy::nrf::i2c::{from_error as nrf_from_error, DriverError as NrfError};
use riot_rs_embassy::stm32::i2c::{from_error as stm_from_error, DriverError as StmError};

#[test]
fn i2c_error_kinds() {
    assert_eq!(Error::Bus.kind(), ErrorKind::Bus);
    assert_eq!(Error::ArbitrationLoss.kind(), ErrorKind::ArbitrationLoss);
    assert_eq!(
        Error::NoAcknowledge(NoAcknowledgeSource::Data).kind(),
        ErrorKind::NoAcknowledge(NoAcknowledgeSource::Data)
    );
    assert_eq!(Error::Overrun.kind(), ErrorKind::Overrun);
    assert_eq!(Error::Timeout.kind(), ErrorKind::Other);
    assert_eq!(Error::Other.kind(), ErrorKind::Other);
}

#[test]
fn esp_driver_errors() {
    assert_eq!(esp_from_error(EspError::ExceedingFifo), Error::Overrun);
    assert_eq!(esp_from_error(EspError::AckCheckFailed), Error::NoAcknowledge(NoAcknowledgeSource::Unknown));
    assert_eq!(esp_from_error(EspError::TimeOut), Error::Timeout);
    assert_eq!(esp_from_error(EspError::ArbitrationLost), Error::ArbitrationLoss);
    assert_eq!(esp_from_error(EspError::ExecIncomplete), Error::Other);
    assert_eq!(esp_from_error(EspError::CommandNrExceeded), Error::Other);
    assert_eq!(c6_from_error(C6Error::InvalidZeroLength), Error::Other);
    assert_eq!(c6_from_error(C6Error::TimeOut), Error::Timeout);
}

#[test]
fn nrf_driver_errors() {
    assert_eq!(nrf_from_error(NrfError::AddressNack), Error::NoAcknowledge(NoAcknowledgeSource::Address));
    assert_eq!(nrf_from_error(NrfError::DataNack), Error::NoAcknowledge(NoAcknowledgeSource::Data));
    assert_eq!(nrf_from_error(NrfError::Overrun), Error::Overrun);
    assert_eq!(nrf_from_error(NrfError::Timeout), Error::Timeout);
    assert_eq!(nrf_from_error(NrfError::BufferNotInRAM), Error::Other);
    assert_eq!(nrf_from_error(NrfError::TxBufferTooLong), Error::Other);
    assert_eq!(nrf_from_error(NrfError::Unlisted), Error::Other);
}

#[test]
fn stm32_driver_errors() {
    assert_eq!(stm_from_error(StmError::Bus), Error::Bus);
    assert_eq!(stm_from_error(StmError::Arbitration), Error::ArbitrationLoss);
    assert_eq!(stm_from_error(StmError::Nack), Error::NoAcknowledge(NoAcknowledgeSource::Unknown));
    assert_eq!(stm_from_error(StmError::Timeout), Error::Timeout);
    assert_eq!(stm_from_error(StmError::Crc), Error::Other);
    assert_eq!(stm_from_error(StmError::Overrun), Error::Overrun);
    assert_eq!(stm_from_error(StmError::ZeroLengthTransfer), Error::Other);
}

#[test]
fn application_errors() {
    assert_eq!(
        ApplicationError::from(DefinePeripheralsError::TakingPeripheral),
        ApplicationError::CannotTakePeripheral
    );
    let mut slot = Some(5u8);
    assert_eq!(take_peripheral(&mut slot), Ok(5));
    assert_eq!(slot, None);
    assert_eq!(take_peripheral(&mut slot), Err(DefinePeripheralsError::TakingPeripheral));
}

#[test]
fn i2c_timeout_outcomes() {
    assert_eq!(timeout_outcome(None), Err(Error::NoAcknowledge(NoAcknowledgeSource::Unknown)));
    assert_eq!(timeout_outcome(Some(Ok(()))), Ok(()));
    assert_eq!(timeout_outcome(Some(Err(Error::Overrun))), Err(Error::Overrun));
}
