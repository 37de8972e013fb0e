[package]
name = "mic_button"
version = "0.1.0"
edition = "2021"
publish = false

[dependencies]
avr-device = { version = "=0.8.1", features = ["attiny85", "rt"] }
panic-halt = "=1.0.0"
