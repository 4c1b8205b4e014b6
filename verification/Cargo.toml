[package]
name = "cores3"
version = "0.1.0"
edition = "2021"
publish = false

[dependencies]
embedded-graphics = "0.8"
embedded-hal = "1"
embedded-hal-bus = "0.3"
mipidsi = "0.9"
esp-hal = "1"
esp-println = "*"
esp-bootloader-esp-idf = "*"
