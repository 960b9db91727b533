[package]
name = "irock_programmer"
version = "0.1.0"
edition = "2021"
publish = false

[dependencies]
anyhow = "=1.0.104"
cursive = "=0.21.1"
nix = { version = "=0.31.3", features = ["process"] }
octocrab = "=0.47.1"
probe-rs = "=0.32.0"
reqwest = { version = "=0.12.28", default-features = false, features = ["rustls-tls"] }
self_update = "=1.3.0"
serde = { version = "=1.0.229", features = ["derive"] }
tempfile = "=3.27.0"
tokio = { version = "=1.53.2", features = ["rt", "rt-multi-thread"] }
