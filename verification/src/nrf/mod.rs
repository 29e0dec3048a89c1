//! nRF architecture: GPIO output settings, SPI modes and I2C error mapping.
pub mod gpio;
pub mod i2c;
pub mod internal_temp;
pub mod spi;
