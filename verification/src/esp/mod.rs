//! ESP32 architecture: GPIO output settings, bus frequencies and error mapping.
pub mod gpio;
pub mod i2c;
pub mod spi;
