[package]
name = "radio_adapter"
version = "0.1.0"
edition = "2021"
publish = false

[dependencies]
embassy-sync = "*"
esp-radio = "*"
