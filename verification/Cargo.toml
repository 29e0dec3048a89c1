[package]
name = "riot-rs-embassy"
version = "0.1.0"
edition = "2021"
publish = false

[dependencies]
embassy-executor = "0.8"
embassy-sync = "=0.6.2"
embassy-time = "=0.3.2"
embassy-futures = "=0.1.2"
embassy-embedded-hal = "=0.2.0"
embassy-hal-internal = "=0.2.0"
embassy-usb = "=0.3.0"
embedded-hal = "=1.0.0"
embedded-hal-async = "=1.0.0"
fugit = "=0.3.9"
portable-atomic = "=1.15.0"
static_cell = "=2.1.1"
once_cell = { version = "=1.21.4", default-features = false, features = ["critical-section"] }
const_panic = "=0.2.17"
linkme = "=0.3.37"
paste = "=1.0.15"
cfg-if = "=1.0.5"
