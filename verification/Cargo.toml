[package]
name = "ssd1306_oled"
version = "0.1.0"
edition = "2021"
publish = false

[dependencies]
rppal = "*"
