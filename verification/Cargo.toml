[package]
name = "stm32f2_hal"
version = "0.1.0"
edition = "2021"
publish = false

[dependencies]
silica = "0.0.1"
