[package]
name = "stm32f7xx_hal"
version = "0.1.0"
edition = "2021"
publish = false

[dependencies]
cast = { version = "=0.2.7", default-features = false }
cortex-m = "=0.7.10"
embedded-hal = { version = "=0.2.7", features = ["unproven"] }
stm32f7 = { version = "=0.15.1", features = ["stm32f7x6"] }
