[package]
name = "oxid8"
version = "0.1.0"
edition = "2021"
publish = false

[dependencies]
atomic_enum = "0.3"
clap = { version = "4", features = ["derive"] }
color-eyre = "0.6"
cpal = "0.15"
ndarray = "0.16"
random-number = "0.1"
ratatui = "0.29"
