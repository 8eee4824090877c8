[package]
name = "macmon"
version = "0.1.0"
edition = "2021"
publish = false

[dependencies]
serde_json = "=1.0.151"
serde = { version = "=1.0.229", features = ["derive"] }
serde-inline-default = "=1.0.3"
ratatui = { version = "=0.30.2", features = ["serde"] }
clap = { version = "=4.6.7", features = ["derive"] }
