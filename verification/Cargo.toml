[package]
name = "can_stm32_driver"
version = "0.1.0"
edition = "2021"
publish = false

[dependencies]
can-utils = "*"
nb = "*"
embedded-hal = "*"
stm32f439 = "*"
