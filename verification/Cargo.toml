[package]
name = "wasm_leds"
version = "0.1.0"
edition = "2021"
publish = false

[dependencies]
embedded-hal = "=1.0.0"
esp-idf-sys = "=0.38.1"
led-strip = "=0.4.1"
wasm3-sys = "=0.3.0"
