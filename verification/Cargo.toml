[package]
name = "dev_monitor"
version = "0.1.0"
edition = "2021"
publish = false

[dependencies]
ctrlc = "3"
serde = { version = "1", features = ["derive"] }
serde_json = "1"
