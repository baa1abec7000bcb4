[package]
name = "stm32f4_i2c"
version = "0.1.0"
edition = "2021"
publish = false

[dependencies]
stm32f4 = { version = "0.15", default-features = false, features = ["stm32f446"] }
