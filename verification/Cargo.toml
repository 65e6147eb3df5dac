[package]
name = "camera"
version = "0.1.0"
edition = "2021"
publish = false

[dependencies]
log = "0.4"
replace_with = "0.1"
serialport = { version = "4", default-features = false }
