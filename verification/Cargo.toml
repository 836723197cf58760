[package]
name = "vizia_plug"
version = "0.1.0"
edition = "2021"
publish = false

[dependencies]
crossbeam = "0.8.5"
parking_lot = "0.12.5"
vizia = { version = "0.4.0", default-features = false }
vizia_reactive = "0.4.0"
