//! ESP32-C6 support: GPIO output settings, bus settings, error mapping and USB peripherals.
pub mod gpio;
pub mod i2c;
pub mod spi;
pub mod usb;
pub mod wifi;
