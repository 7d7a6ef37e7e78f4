[package]
name = "socks_portal"
version = "0.1.0"
edition = "2021"
publish = false

[dependencies]
httparse = "=1.10.1"
socks5-impl = { version = "=0.10.3", features = ["client"] }
tokio = { version = "=1.54.1", features = ["net", "io-util", "rt-multi-thread", "macros"] }
clap = { version = "=4.6.7", features = ["derive"] }
serde = { version = "=1.0.229", features = ["derive"] }
serde_json = "=1.0.154"
