[package]
name = "nmea_rmc"
version = "0.1.0"
edition = "2021"
publish = false

[dependencies]
nom = "=8.0.0"
serde = { version = "=1.0.229", features = ["derive"] }
time = { version = "=0.3.55", features = ["serde"] }
