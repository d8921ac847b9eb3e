[package]
name = "ross_protocol"
version = "0.1.0"
edition = "2021"
publish = false

[dependencies]
cobs = "0.2"
bxcan = "0.7"
nb = "1"
embedded-hal = "0.2"
serialport = { version = "4", default-features = false }
