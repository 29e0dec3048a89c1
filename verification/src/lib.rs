//! Architecture-independent building blocks of an embedded operating system's Embassy
//! integration: GPIO configuration, I2C and SPI settings and frequency selection, errors,
//! external-interrupt channel registries, and the decisions of a few system tasks, together
//! with the settings of each supported architecture (ESP32, nRF, RP2040, STM32).

pub mod application;
pub mod arch;
pub mod esp;
pub mod extint_registry;
pub mod gpio;
pub mod hal_esp;
pub mod i2c;
pub mod network;
pub mod nrf;
pub mod range_bounds;
pub mod rate;
pub mod rp2040;
pub mod sendcell;
pub mod spi;
pub mod startup;
pub mod stm32;
pub mod usb;
