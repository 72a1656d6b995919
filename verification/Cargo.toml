[package]
name = "gio_relay"
version = "0.1.0"
edition = "2021"
publish = false

[dependencies]
hex = "0.4"
hyper = { version = "0.14", features = ["full"] }
serde = { version = "1", features = ["derive"] }
serde_json = "1"
tokio = { version = "1", features = ["full"] }
