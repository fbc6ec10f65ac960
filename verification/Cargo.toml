[package]
name = "telegram_codex_bridge"
version = "0.1.1"
edition = "2021"
publish = false

[dependencies]
anyhow = "1"
fs2 = "0.4"
reqwest = { version = "0.12", default-features = false, features = ["json", "rustls-tls"] }
serde = { version = "1", features = ["derive"] }
serde_json = "1"
tokio = { version = "1", features = ["fs", "io-util", "macros", "process", "rt-multi-thread", "sync", "time"] }
tokio-util = "0.7"
toml = "0.8"
