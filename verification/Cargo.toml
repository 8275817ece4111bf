[package]
name = "raspi_drivers"
version = "0.1.0"
edition = "2021"
publish = false

[dependencies]
cortex-a = { version = "=8.1.1", default-features = false }
tock-registers = "=0.8.1"
