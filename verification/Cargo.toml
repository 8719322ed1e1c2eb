[package]
name = "poolrace"
version = "0.1.0"
edition = "2021"
publish = false

[dependencies]
solana-sdk = "=1.18.26"
spl-associated-token-account = "=2.3.0"
bincode = { version = "=2.0.1", features = ["serde"] }
base64 = "=0.22.1"
serde_json = "=1.0.151"
serde = { version = "=1.0.229", features = ["derive"] }
serde_yaml = "=0.9.34"
reqwest = { version = "=0.12.28", default-features = false }
tokio = { version = "=1.53.2", features = ["rt-multi-thread", "macros"] }

[dev-dependencies]
spl-token = "=4.0.3"
