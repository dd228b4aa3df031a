[package]
name = "noda-interview"
version = "0.1.0"
edition = "2021"
publish = false

[dependencies]
anyhow = "1"
chrono = { version = "0.4", default-features = false, features = ["std"] }
clap = { version = "4", features = ["derive"] }
csv = "1"
rusqlite = "*"
serde = { version = "1", features = ["derive"] }
serde_json = "1"
