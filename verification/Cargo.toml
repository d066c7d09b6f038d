[package]
name = "ws2812_indicator"
version = "0.1.0"
edition = "2021"
publish = false

[dependencies]
embassy-nrf = { version = "=0.11.0", features = ["nrf52840", "unstable-pac"] }
embassy-time = "=0.5.1"
