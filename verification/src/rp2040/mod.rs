//! RP2040 architecture: GPIO drive strengths, bus frequencies and SPI modes.
pub mod gpio;
pub mod i2c;
pub mod spi;
