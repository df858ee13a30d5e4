[package]
name = "ironet"
version = "0.1.0"
edition = "2021"
publish = false

[dependencies]
anyhow = "1"
arc-swap = "1"
blake3 = "1"
bytes = "1"
hex = "0.4"
ipnet = { version = "2", features = ["serde"] }
iroh-base = { version = "1", default-features = false, features = ["key"] }
rustc-hash = "2"
serde = { version = "1", features = ["derive"] }
serde_json = "1"
smallvec = "1"
tokio = { version = "1", features = ["rt", "net", "sync", "time", "macros"] }
toml = { version = "*", default-features = false, features = ["std", "parse", "display", "serde"] }
tracing = "0.1"
tun-rs = { version = "2", features = ["async"] }
