[package]
name = "infrastructure"
version = "0.1.0"
edition = "2021"
publish = false

[dependencies]
argon2 = { version = "=0.5.3", features = ["std"] }
bincode = "=2.0.1"
blake3 = "=1.8.7"
chacha20poly1305 = "=0.10.1"
chrono = "=0.4.45"
moka = { version = "=0.12.16", features = ["sync"] }
rand = "=0.8.8"
redb = "=2.6.4"
reqwest = { version = "0.12", default-features = false, features = ["json"] }
secrecy = { version = "=0.10.3", features = ["serde"] }
serde = { version = "=1.0.229", features = ["derive"] }
serde_json = "=1.0.154"
sled = "=0.34.7"
uuid = { version = "=1.29.0", features = ["v4"] }
