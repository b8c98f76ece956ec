[package]
name = "ffp"
version = "0.1.0"
edition = "2021"
publish = false

[dependencies]
cortex-m = "0.7"
stm32ral = { version = "0.8", default-features = false, features = ["stm32f0x2"] }
