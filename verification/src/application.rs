//! Errors of application start-up.
use vstd::prelude::*;

verus! {

/// Error returned when taking peripherals for an application fails.
#[derive(Debug, Copy, Clone, PartialEq, Eq, Structural)]
pub enum DefinePeripheralsError {
    /// A peripheral could not be taken, most likely because it was already taken.
    TakingPeripheral,
}

/// Represents errors that can happen during application initialization.
#[derive(Debug, Copy, Clone, PartialEq, Eq, Structural)]
pub enum ApplicationError {
    /// The application could not obtain a peripheral, most likely because it was already used by
    /// another application or by the system itself.
    CannotTakePeripheral,
}

impl From<DefinePeripheralsError> for ApplicationError {
    fn from(err: DefinePeripheralsError) -> (r: Self) {
        match err {
            DefinePeripheralsError::TakingPeripheral => ApplicationError::CannotTakePeripheral,
        }
    }
}

impl vstd::std_specs::convert::FromSpecImpl<DefinePeripheralsError> for ApplicationError {
    open spec fn obeys_from_spec() -> bool {
        true
    }

    open spec fn from_spec(err: DefinePeripheralsError) -> ApplicationError {
        match err {
            DefinePeripheralsError::TakingPeripheral => ApplicationError::CannotTakePeripheral,
        }
    }
}

/// Represents an error happening within the USB builder hook.
#[derive(Debug, Copy, Clone, PartialEq, Eq, Structural)]
pub struct UsbBuilderHookError;

/// Takes a peripheral out of its slot.
///
/// # Errors
///
/// Returns [`DefinePeripheralsError::TakingPeripheral`] when the slot is empty, that is when
/// the peripheral was already taken; the slot is then left empty.
pub fn take_peripheral<T>(slot: &mut Option<T>) -> (r: Result<T, DefinePeripheralsError>)
    ensures
        final(slot).is_none(),
        old(slot).is_some() ==> r == Ok::<T, DefinePeripheralsError>(old(slot).unwrap()),
        old(slot).is_none() ==> r == Err::<T, DefinePeripheralsError>(
            DefinePeripheralsError::TakingPeripheral,
        ),
{
    match slot.take() {
        Some(p) => Ok(p),
        None => Err(DefinePeripheralsError::TakingPeripheral),
    }
}

} // verus!
