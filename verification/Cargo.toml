[package]
name = "stm32f3_oscilloscope"
version = "0.1.0"
edition = "2021"
publish = false

[dependencies]
cortex-m = "=0.5.11"
cortex-m-rt = "=0.6.15"
stm32f30x = { version = "=0.8.0", features = ["rt"] }
