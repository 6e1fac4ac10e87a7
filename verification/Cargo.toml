[package]
name = "wcif"
version = "0.1.0"
edition = "2021"
publish = false

[dependencies]
chrono = { version = "0.4", features = ["serde"] }
monostate = "0.1"
serde = { version = "1", features = ["derive"] }
serde_json = "1"
serde_with = "3"
