[package]
name = "bme280_driver"
version = "0.1.0"
edition = "2021"
publish = false

[dependencies]
embassy-time = "0.4"
embassy-futures = "0.1"
embedded-hal = "1.0.0"
embedded-hal-async = "1.0.0"
thiserror = "2"

[dev-dependencies]
embedded-hal-mock = "0.11"
