//! Registries of the external-interrupt channels, which are a limited hardware resource.
//!
//! Each architecture family has its own registry: on nRF the channels are interchangeable and
//! only their number is limited; on STM32 each pin number has its own channel; elsewhere there
//! is nothing to track.
pub mod nrf;
pub mod other;
pub mod stm32;
