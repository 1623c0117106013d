[package]
name = "teary_eyes"
version = "0.1.0"
edition = "2021"
publish = false

[dependencies]
eframe = { version = "=0.27.2", default-features = false }
