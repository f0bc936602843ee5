[package]
name = "gpttools"
version = "0.1.0"
edition = "2021"
publish = false

[dependencies]
log = "=0.4.34"
rand = "0.8"
reqwest = { version = "=0.12.28", default-features = false, features = ["blocking"] }
rusqlite = { version = "=0.32.1", features = ["bundled"] }
serde = { version = "=1.0.229", features = ["derive"] }
serde_json = "=1.0.154"
sha2 = "0.10"
tiny_http = "=0.12.0"
