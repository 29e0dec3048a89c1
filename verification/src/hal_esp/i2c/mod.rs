//! I2C support of the ESP32-C6.
pub mod controller;
