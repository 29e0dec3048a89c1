//! STM32 architecture: GPIO output settings, bus frequencies, SPI modes and I2C error mapping.
pub mod gpio;
pub mod i2c;
pub mod spi;
