[package]
name = "kvstore"
version = "0.1.0"
edition = "2021"
publish = false

[dependencies]
hex = "0.4"
rusqlite = "*"
serde = { version = "1", features = ["derive"] }
serde_json = "1"
