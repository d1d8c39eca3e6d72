[package]
name = "tabata_core"
version = "0.1.0"
edition = "2021"
publish = false

[dependencies]
embedded-graphics = "=0.8.2"
embedded-graphics-simulator = "=0.8.0"
embassy-embedded-hal = "=0.6.0"
embassy-executor = "=0.9.1"
embassy-sync = "=0.8.0"
embassy-time = "=0.5.1"
mipidsi = "=0.10.0"
panic-halt = "=1.0.0"
rotary-encoder-embedded = "=0.5.0"
