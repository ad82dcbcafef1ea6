[package]
name = "cli_farm"
version = "0.1.0"
edition = "2021"
publish = false

[dependencies]
colored = "2"
crossterm = "0.27"
serde = { version = "1", features = ["derive"] }
serde_json = "1"
