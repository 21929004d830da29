[package]
name = "facturation"
version = "0.1.0"
edition = "2021"
publish = false

[dependencies]
rusqlite = { version = "*", features = ["bundled"] }
serde_json = "1"
serde = { version = "1", features = ["derive"] }
dirs = "*"
thiserror = "*"
