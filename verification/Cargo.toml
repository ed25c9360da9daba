[package]
name = "ntr_tracker"
version = "0.1.0"
edition = "2021"
publish = false

[dependencies]
encoding_rs = "0.8"
notify = "*"
serde = { version = "1", features = ["derive"] }
