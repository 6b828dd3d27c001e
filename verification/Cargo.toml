[package]
name = "si7021_hal"
version = "0.1.0"
edition = "2021"
publish = false

[dependencies]
byteorder = "1"
embedded-hal = "0.2"
