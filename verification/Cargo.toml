[package]
name = "lianad_payjoin"
version = "0.1.0"
edition = "2021"
publish = false

[dependencies]
bitcoin-ohttp = "=0.6.0"
log = "=0.4.35"
miniscript = "=12.3.8"
payjoin = "=0.24.0"
reqwest = { version = "=0.12.28", default-features = false, features = ["blocking", "rustls-tls"] }
serde = { version = "=1.0.229", features = ["derive"] }
serde_json = "=1.0.154"
