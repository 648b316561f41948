[package]
name = "dumo"
version = "0.1.0"
edition = "2021"
publish = false

[dependencies]
embedded-graphics = "=0.8.2"
ratatui-core = { version = "=0.1.2", features = ["underline-color"] }
unicode-width = "=0.2.3"
mplusfonts = { version = "=0.3.4", features = ["epd-spectra"] }
thiserror = { version = "=2.0.21", default-features = false }
epd-spectra = { version = "=0.4.0", default-features = false }
