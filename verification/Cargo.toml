[package]
name = "tsc2046"
version = "0.1.0"
edition = "2021"
publish = false

[dependencies]
embedded-hal = "1"
rustc_apfloat = "*"
