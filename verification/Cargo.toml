[package]
name = "dummy_connector"
version = "0.1.0"
edition = "2021"
publish = false

[dependencies]
maud = "*"
rand = "0.8"
serde = { version = "1", features = ["derive"] }
tokio = { version = "1", features = ["time"] }
