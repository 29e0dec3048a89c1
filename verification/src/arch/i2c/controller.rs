//! Architecture-specific I2C types for controller mode.
//!
//! This architecture offers the two standard frequencies, 100 kHz and 400 kHz, with the same
//! type as the ESP32-C6 support.
pub use crate::hal_esp::i2c::controller::Frequency;
