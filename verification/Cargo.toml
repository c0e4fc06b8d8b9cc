[package]
name = "codex_core"
version = "0.1.0"
edition = "2021"
publish = false

[dependencies]
regex-lite = "=0.1.9"
url = "=2.5.8"
serde = { version = "=1.0.229", features = ["derive"] }
serde_json = "=1.0.154"
which = "=8.0.6"
similar = "=3.2.1"
chrono = { version = "0.4", default-features = false, features = ["clock", "serde"] }
sha2 = "0.10"

[dev-dependencies]
tempfile = "=3.27.0"
