[package]
name = "fitcore"
version = "0.1.0"
edition = "2021"
publish = false

[dependencies]
chrono = "*"
fitparser = "*"
hex = "*"
rusqlite = { version = "*", features = ["bundled"] }
serde = { version = "1", features = ["derive"] }
serde_json = "*"
sha2 = "*"
