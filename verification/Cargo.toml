[package]
name = "rupamix"
version = "0.1.0"
edition = "2021"
publish = false

[dependencies]
libpulse-binding = "2"
clap = { version = "4", features = ["derive"] }
colored = "2"
