[package]
name = "hpet"
version = "0.1.0"
edition = "2021"
publish = false

[dependencies]
volatile = { version = "0.6", features = ["derive"] }
