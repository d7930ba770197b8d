[package]
name = "stm32f7xx-hal"
version = "0.1.0"
edition = "2021"
publish = false

[dependencies]
cortex-m = "0.7"
synopsys-usb-otg = { version = "*", features = ["hs"] }
